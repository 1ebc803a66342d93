use vstd::prelude::*;

use crate::chain::Transfer;

verus! {

#[derive(Debug)]
pub struct InstantiateMsg {
    pub platform_address: String,
    pub usdc_denom: String,
    pub entry_fee: u128,
    pub referral_reward: u128,
    pub platform_fee: u128,
    pub nft_contract: Option<String>,
    pub crossmint_nft_contract: Option<String>,
}

#[derive(Debug)]
pub enum ExecuteMsg {
    /// Join with a direct payment of the entry fee.
    Join { referrer: Option<String> },
    /// Claim a membership paid elsewhere, shown by holding a token.
    Claim { referrer: Option<String> },
    /// Admin: update the configuration.
    UpdateConfig {
        platform_address: Option<String>,
        entry_fee: Option<u128>,
        referral_reward: Option<u128>,
        platform_fee: Option<u128>,
        nft_contract: Option<String>,
        crossmint_nft_contract: Option<String>,
    },
}

#[derive(Debug)]
pub struct MigrateMsg {}

#[derive(Debug)]
pub enum QueryMsg {
    Config {},
    Member { address: String },
    Stats {},
    Referrals { address: String },
}

#[derive(Debug)]
pub struct ConfigResponse {
    pub admin: String,
    pub platform_address: String,
    pub usdc_denom: String,
    pub entry_fee: u128,
    pub referral_reward: u128,
    pub platform_fee: u128,
    pub nft_contract: Option<String>,
    pub crossmint_nft_contract: Option<String>,
}

#[derive(Debug)]
pub struct MemberResponse {
    pub is_member: bool,
    pub member: Option<MemberInfo>,
}

#[derive(Debug)]
pub struct MemberInfo {
    pub address: String,
    pub referrer: Option<String>,
    pub joined_at: u64,
    pub referral_count: u32,
    pub total_earned: u128,
    pub payment_method: Option<String>,
    pub distributed: Option<bool>,
}

#[derive(Debug)]
pub struct StatsResponse {
    pub total_members: u64,
    pub total_paid_out: u128,
}

#[derive(Debug)]
pub struct ReferralsResponse {
    pub referral_count: u32,
    pub total_earned: u128,
}

/// The answer to a query, one variant per query.
#[derive(Debug)]
pub enum QueryResponse {
    Config(ConfigResponse),
    Member(MemberResponse),
    Stats(StatsResponse),
    Referrals(ReferralsResponse),
}

/// An instruction to the token contract `contract_addr` to mint `token_id`
/// for `owner`.
#[derive(Debug)]
pub struct MintCall {
    pub contract_addr: String,
    pub token_id: String,
    pub owner: String,
}

/// What a successful join or claim hands out.
#[derive(Debug)]
pub struct Payouts {
    pub transfers: Vec<Transfer>,
    pub mint: Option<MintCall>,
}

} // verus!
