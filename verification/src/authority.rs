//! Seeds of the program's derived addresses.
//!
//! The program signs without a private key: each of its records lives at an
//! address derived from a fixed label, at most one address that gives the
//! context, and a one-byte bump chosen when the record was made. Whoever
//! asks an outside service to act in the program's name hands over exactly
//! these seeds, and the service derives the address again before it accepts
//! the signature.

use vstd::prelude::*;
use crate::address::Address;
use crate::state::StakeConfig;

verus! {

/// Most seeds that one derivation takes.
pub const MAX_SEEDS: usize = 16;

/// Most bytes that one seed holds.
pub const MAX_SEED_LEN: usize = 32;

/// The fixed label that starts the seeds of each kind of record.
#[derive(Clone, Copy, Debug, PartialEq, Eq, Structural)]
pub enum SeedLabel {
    /// The stake configuration.
    Config,
    /// A user account; the context is the user.
    User,
    /// A stake record; the context is the staked asset.
    Stake,
    /// The reward mint; the context is the configuration's address.
    Rewards,
}

impl SeedLabel {
    /// The label's bytes: its name in lower-case ASCII.
    pub open spec fn bytes(self) -> Seq<u8> {
        match self {
            SeedLabel::Config => seq![99u8, 111u8, 110u8, 102u8, 105u8, 103u8],
            SeedLabel::User => seq![117u8, 115u8, 101u8, 114u8],
            SeedLabel::Stake => seq![115u8, 116u8, 97u8, 107u8, 101u8],
            SeedLabel::Rewards => seq![114u8, 101u8, 119u8, 97u8, 114u8, 100u8, 115u8],
        }
    }

    /// The label's bytes.
    pub fn to_vec(&self) -> (v: Vec<u8>)
        ensures
            v@ == self.bytes(),
    {
        match self {
            SeedLabel::Config => vec![99u8, 111u8, 110u8, 102u8, 105u8, 103u8],
            SeedLabel::User => vec![117u8, 115u8, 101u8, 114u8],
            SeedLabel::Stake => vec![115u8, 116u8, 97u8, 107u8, 101u8],
            SeedLabel::Rewards => vec![114u8, 101u8, 119u8, 97u8, 114u8, 100u8, 115u8],
        }
    }
}

/// The seeds of one derived address: label, context and bump.
#[derive(Clone, Copy, Debug, PartialEq, Eq)]
pub struct AuthoritySeeds {
    pub label: SeedLabel,
    pub context: Option<Address>,
    pub bump: u8,
}

impl AuthoritySeeds {
    /// The seeds in the order in which they are hashed: the label, the
    /// context where there is one, and the bump as a seed of one byte.
    pub open spec fn seeds(self) -> Seq<Seq<u8>> {
        match self.context {
            Some(context) => seq![self.label.bytes(), context@, seq![self.bump]],
            None => seq![self.label.bytes(), seq![self.bump]],
        }
    }

    /// Seeds of the stake configuration's address, with the bump that the
    /// configuration stores.
    pub fn config(config: &StakeConfig) -> (s: AuthoritySeeds)
        ensures
            s == (AuthoritySeeds { label: SeedLabel::Config, context: None, bump: config.bump }),
    {
        AuthoritySeeds { label: SeedLabel::Config, context: None, bump: config.bump }
    }

    /// Seeds of the reward mint's address under the configuration at
    /// `config_address`, with the bump that the configuration stores.
    pub fn rewards(config_address: Address, config: &StakeConfig) -> (s: AuthoritySeeds)
        ensures
            s == (AuthoritySeeds {
                label: SeedLabel::Rewards,
                context: Some(config_address),
                bump: config.rewards_bump,
            }),
    {
        AuthoritySeeds {
            label: SeedLabel::Rewards,
            context: Some(config_address),
            bump: config.rewards_bump,
        }
    }

    /// Seeds of the account of `user`.
    pub fn user(user: Address, bump: u8) -> (s: AuthoritySeeds)
        ensures
            s == (AuthoritySeeds { label: SeedLabel::User, context: Some(user), bump }),
    {
        AuthoritySeeds { label: SeedLabel::User, context: Some(user), bump }
    }

    /// Seeds of the stake record of `asset`.
    pub fn stake(asset: Address, bump: u8) -> (s: AuthoritySeeds)
        ensures
            s == (AuthoritySeeds { label: SeedLabel::Stake, context: Some(asset), bump }),
    {
        AuthoritySeeds { label: SeedLabel::Stake, context: Some(asset), bump }
    }

    /// The seeds as byte strings, ready to be handed to the signing layer.
    pub fn signer_seeds(&self) -> (v: Vec<Vec<u8>>)
        ensures
            v.deep_view() == self.seeds(),
            v@.len() == self.seeds().len(),
            forall|i: int| 0 <= i < v@.len() ==> (#[trigger] v@[i])@ == self.seeds()[i],
            v@.len() <= MAX_SEEDS,
            forall|i: int| 0 <= i < v@.len() ==> (#[trigger] v@[i])@.len() <= MAX_SEED_LEN,
    {
        let mut v: Vec<Vec<u8>> = Vec::new();
        v.push(self.label.to_vec());
        match self.context {
            Some(context) => {
                v.push(context.to_vec());
            },
            None => {},
        }
        v.push(vec![self.bump]);
        assert(v.deep_view() =~~= self.seeds());
        v
    }
}

/// Every derived address of the program stays within the limits of a
/// derivation: at most `MAX_SEEDS` seeds of at most `MAX_SEED_LEN` bytes.
pub proof fn seeds_within_limits(s: AuthoritySeeds)
    ensures
        2 <= s.seeds().len() <= 3,
        s.seeds().len() <= MAX_SEEDS,
        forall|i: int| 0 <= i < s.seeds().len() ==> (#[trigger] s.seeds()[i]).len() <= MAX_SEED_LEN,
        s.seeds()[0] == s.label.bytes(),
        s.seeds().last() == seq![s.bump],
{
}

} // verus!
