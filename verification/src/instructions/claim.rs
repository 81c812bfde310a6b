//! Turning a user's points into reward tokens.

use vstd::prelude::*;
use crate::address::Address;
use crate::authority::{AuthoritySeeds, SeedLabel};
use crate::errors::StakeError;
use crate::rewards::{reward_amount, reward_units};
use crate::state::{LedgerAccount, StakeConfig, UserAccount};

verus! {

/// The request to the token service to open the user's token account for
/// the reward mint.
#[derive(Clone, Copy, Debug, PartialEq, Eq)]
pub struct CreateTokenAccount {
    /// Who pays for the new account: the user.
    pub payer: Address,
    /// The account to create.
    pub account: Address,
    /// Who will own the tokens in it: the user.
    pub wallet: Address,
    /// The mint whose tokens it will hold.
    pub mint: Address,
}

/// The request to the token service to issue reward tokens, in the name of
/// the configuration's derived authority.
#[derive(Clone, Copy, Debug, PartialEq, Eq)]
pub struct MintRequest {
    /// The reward mint.
    pub mint: Address,
    /// The token account that receives the tokens.
    pub to: Address,
    /// How much to mint, in base units of the token.
    pub amount: u64,
    /// Seeds of the configuration's address, which is the mint authority.
    pub authority: AuthoritySeeds,
}

/// What a successful claim hands to the caller to carry out, in this order.
#[derive(Clone, Copy, Debug, PartialEq, Eq)]
pub struct ClaimReceipt {
    /// Points taken off the user's balance.
    pub points_claimed: u32,
    /// The account to open first, where the user has none yet.
    pub create_account: Option<CreateTokenAccount>,
    /// The one mint request of this claim.
    pub mint: MintRequest,
}

/// The records that a claim reads and writes.
#[derive(Clone, Copy, Debug, PartialEq, Eq)]
pub struct Claim {
    /// The user who signed the transaction.
    pub user: Address,
    /// The account of `user`.
    pub user_account: UserAccount,
    /// The program's configuration.
    pub config: StakeConfig,
    /// The reward mint.
    pub rewards_mint: Address,
    /// The user's token account for the reward mint, which may not exist yet.
    pub user_rewards_ata: LedgerAccount,
}

impl Claim {
    /// The records after a claim that went through: the balance is zero.
    pub open spec fn claimed(self) -> Claim {
        Claim { user_account: UserAccount { points: 0, ..self.user_account }, ..self }
    }

    /// What a claim that went through hands back.
    pub open spec fn receipt(self) -> ClaimReceipt {
        ClaimReceipt {
            points_claimed: self.user_account.points,
            create_account: if self.user_rewards_ata.initialized {
                None
            } else {
                Some(
                    CreateTokenAccount {
                        payer: self.user,
                        account: self.user_rewards_ata.key,
                        wallet: self.user,
                        mint: self.rewards_mint,
                    },
                )
            },
            mint: MintRequest {
                mint: self.rewards_mint,
                to: self.user_rewards_ata.key,
                amount: reward_units(self.user_account.points as int) as u64,
                authority: AuthoritySeeds {
                    label: SeedLabel::Config,
                    context: None,
                    bump: self.config.bump,
                },
            },
        }
    }

    /// The records after a call of `claim`, refused or not.
    pub open spec fn after(self) -> Claim {
        if self.user_account.points > 0 {
            self.claimed()
        } else {
            self
        }
    }

    /// What a call of `claim` returns. An empty balance is refused with
    /// `InvalidAsset`.
    pub open spec fn outcome(self) -> Result<ClaimReceipt, StakeError> {
        if self.user_account.points > 0 {
            Ok(self.receipt())
        } else {
            Err(StakeError::InvalidAsset)
        }
    }

    /// Claims all of the user's points.
    ///
    /// With no points the call is refused with `InvalidAsset` and changes
    /// nothing. Otherwise the balance is set to zero, and the receipt asks
    /// for one mint of `points * 10^REWARD_DECIMALS` base units to the user's
    /// token account, signed by the configuration's authority; where that
    /// account does not exist yet, the receipt first asks to create it at
    /// the user's cost. The balance is zero before any request leaves.
    pub fn claim(&mut self) -> (r: Result<ClaimReceipt, StakeError>)
        ensures
            r == old(self).outcome(),
            *final(self) == old(self).after(),
            r is Ok <==> old(self).user_account.points > 0,
            r is Err ==> *final(self) == *old(self),
            final(self).user_account.points == 0,
            r matches Ok(receipt) ==> receipt.mint.amount == old(self).user_account.points
                * 1_000_000,
    {
        if self.user_account.points == 0 {
            return Err(StakeError::InvalidAsset);
        }
        let points_to_claim = self.user_account.points;
        self.user_account.points = 0;
        let create_account = if self.user_rewards_ata.initialized {
            None
        } else {
            Some(
                CreateTokenAccount {
                    payer: self.user,
                    account: self.user_rewards_ata.key,
                    wallet: self.user,
                    mint: self.rewards_mint,
                },
            )
        };
        Ok(
            ClaimReceipt {
                points_claimed: points_to_claim,
                create_account,
                mint: MintRequest {
                    mint: self.rewards_mint,
                    to: self.user_rewards_ata.key,
                    amount: reward_amount(points_to_claim),
                    authority: AuthoritySeeds::config(&self.config),
                },
            },
        )
    }
}

} // verus!
