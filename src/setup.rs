//! Creating the ledger and its participants' records.
use vstd::prelude::*;
use crate::state::{zero_address, Address, Config, UserAccountV3};

verus! {

/// The identities a new ledger is bound to.
#[derive(Clone, Copy, Debug, PartialEq, Eq, Structural)]
pub struct Initialize {
    /// The administrator.
    pub authority: Address,
    pub mint: Address,
    pub collection: Address,
    pub vault: Address,
    pub nfts_vault: Address,
    pub admin_withdraw_destination: Address,
}

/// A new ledger: bound to the context's identities, with no pools, no yield
/// reserve and nothing staked.
pub open spec fn new_config(
    ctx: Initialize,
    id: u64,
    max_cap: u64,
    nft_value_in_tokens: u64,
    nfts_limit_per_user: u8,
) -> Config {
    Config {
        id,
        authority: ctx.authority,
        mint: ctx.mint,
        collection: ctx.collection,
        vault: ctx.vault,
        authority_vault: zero_address(),
        nfts_vault: ctx.nfts_vault,
        admin_withdraw_destination: ctx.admin_withdraw_destination,
        pool_count: 0,
        max_cap,
        nft_value_in_tokens,
        nfts_limit_per_user,
        total_staked_amount: 0,
        total_nfts_staked: 0,
    }
}

impl Initialize {
    /// The ledger's global record as it starts.
    pub fn initialize(
        &self,
        id: u64,
        max_cap: u64,
        nft_value_in_tokens: u64,
        nfts_limit_per_user: u8,
    ) -> (r: Config)
        ensures
            r == new_config(*self, id, max_cap, nft_value_in_tokens, nfts_limit_per_user),
    {
        Config {
            id,
            authority: self.authority,
            mint: self.mint,
            collection: self.collection,
            vault: self.vault,
            authority_vault: Address::zero(),
            nfts_vault: self.nfts_vault,
            admin_withdraw_destination: self.admin_withdraw_destination,
            pool_count: 0,
            max_cap,
            nft_value_in_tokens,
            nfts_limit_per_user,
            total_staked_amount: 0,
            total_nfts_staked: 0,
        }
    }
}

/// The identities a participant's record is bound to.
#[derive(Clone, Copy, Debug, PartialEq, Eq, Structural)]
pub struct InitializeUser {
    pub owner: Address,
    /// The ledger's own identity.
    pub config_key: Address,
}

impl InitializeUser {
    /// A participant's record before any stake.
    pub fn initialize_user(&self) -> (r: UserAccountV3)
        ensures
            r == (UserAccountV3 {
                config: self.config_key,
                total_staked_token_amount: 0,
                total_staked_nfts: 0,
                total_staked_value: 0,
                total_claimed_yield: 0,
            }),
    {
        UserAccountV3 {
            config: self.config_key,
            total_staked_token_amount: 0,
            total_staked_nfts: 0,
            total_staked_value: 0,
            total_claimed_yield: 0,
        }
    }
}

} // verus!
