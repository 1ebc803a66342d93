use vstd::prelude::*;

use crate::chain::clone_opt;
use crate::table::Table;

verus! {

#[derive(Debug)]
pub struct Config {
    pub admin: String,
    pub platform_address: String,
    pub usdc_denom: String,
    pub entry_fee: u128,
    pub referral_reward: u128,
    pub platform_fee: u128,
    /// Token contract that mints a membership token on a direct payment.
    pub nft_contract: Option<String>,
    /// Token contract whose holders may claim a membership paid elsewhere.
    pub crossmint_nft_contract: Option<String>,
}

impl Clone for Config {
    fn clone(&self) -> (r: Self)
        ensures
            r == *self,
    {
        Config {
            admin: self.admin.clone(),
            platform_address: self.platform_address.clone(),
            usdc_denom: self.usdc_denom.clone(),
            entry_fee: self.entry_fee,
            referral_reward: self.referral_reward,
            platform_fee: self.platform_fee,
            nft_contract: clone_opt(&self.nft_contract),
            crossmint_nft_contract: clone_opt(&self.crossmint_nft_contract),
        }
    }
}

#[derive(Debug)]
pub struct Member {
    pub address: String,
    pub referrer: Option<String>,
    pub joined_at: u64,
    pub referral_count: u32,
    pub total_earned: u128,
    /// "usdc" for a direct payment, "crossmint" for a claim.
    pub payment_method: Option<String>,
    /// Whether the entry fee has been passed on.
    pub distributed: Option<bool>,
}

impl Clone for Member {
    fn clone(&self) -> (r: Self)
        ensures
            r == *self,
    {
        Member {
            address: self.address.clone(),
            referrer: clone_opt(&self.referrer),
            joined_at: self.joined_at,
            referral_count: self.referral_count,
            total_earned: self.total_earned,
            payment_method: clone_opt(&self.payment_method),
            distributed: self.distributed,
        }
    }
}

/// Everything the membership service keeps.
#[derive(Debug)]
pub struct State {
    pub config: Config,
    /// Members by address.
    pub members: Table<Member>,
    pub total_members: u64,
    pub total_paid_out: u128,
}

impl State {
    pub open spec fn wf(&self) -> bool {
        &&& self.members.wf()
        &&& forall|k: Seq<char>| #[trigger] self.members@.contains_key(k) ==> self.members@[k].address@ == k
    }
}

} // verus!
