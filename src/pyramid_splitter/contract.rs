use vstd::prelude::*;

use crate::chain::{clone_opt, first_payment, find_payment, Env, MessageInfo, Transfer};
use crate::decimal::{decimal, push_decimal};
use crate::table::Table;
use super::error::ContractError;
use super::msg::{
    ConfigResponse, ExecuteMsg, InstantiateMsg, MemberInfo, MemberResponse, MigrateMsg, MintCall,
    Payouts, QueryMsg, QueryResponse, ReferralsResponse, StatsResponse,
};
use super::state::{Config, Member, State};

verus! {

pub open spec fn referrer_error(s: State, sender: Seq<char>, referrer: Option<String>) -> Option<ContractError> {
    match referrer {
        Some(r) => if r@ == sender {
            Some(ContractError::SelfReferral {})
        } else if !s.members@.contains_key(r@) {
            Some(ContractError::ReferrerNotFound {})
        } else {
            None
        },
        None => None,
    }
}

/// Whether the counters, the referrer's totals and the amount paid out can
/// take one more member.
pub open spec fn admission_fits(s: State, referrer: Option<String>) -> bool {
    &&& s.total_members + 1 <= u64::MAX
    &&& s.total_paid_out + s.config.referral_reward + s.config.platform_fee <= u128::MAX
    &&& (referrer matches Some(r) ==> {
        let m = s.members@[r@];
        m.referral_count + 1 <= u32::MAX && m.total_earned + s.config.referral_reward <= u128::MAX
    })
}

/// How an entry fee is passed on: the reward to the referrer and the fee to
/// the platform, or, without a referrer, the fee and the reward to the platform.
pub open spec fn entry_transfers(c: Config, referrer: Option<String>) -> Seq<Transfer> {
    let fee = Transfer { to_address: c.platform_address, denom: c.usdc_denom, amount: c.platform_fee };
    match referrer {
        Some(r) => seq![Transfer { to_address: r, denom: c.usdc_denom, amount: c.referral_reward }, fee],
        None => seq![fee, Transfer { to_address: c.platform_address, denom: c.usdc_denom, amount: c.referral_reward }],
    }
}

/// The referrer after one more referral.
pub open spec fn credited(m: Member, reward: u128) -> Member {
    Member {
        referral_count: (m.referral_count + 1) as u32,
        total_earned: (m.total_earned + reward) as u128,
        ..m
    }
}

/// A member who has just joined, the fee passed on.
pub open spec fn is_new_member(m: Member, address: String, referrer: Option<String>, now: u64, method: Seq<char>) -> bool {
    &&& m.address == address
    &&& m.referrer == referrer
    &&& m.joined_at == now
    &&& m.referral_count == 0
    &&& m.total_earned == 0
    &&& m.payment_method matches Some(p) && p@ == method
    &&& m.distributed == Some(true)
}

/// `s2` is `s` with `address` a new member, the referrer credited, and the
/// counters advanced.
pub open spec fn admitted(s: State, s2: State, address: String, referrer: Option<String>, now: u64, method: Seq<char>) -> bool {
    let m = s2.members@[address@];
    &&& s2.config == s.config
    &&& s2.total_members == s.total_members + 1
    &&& s2.total_paid_out == s.total_paid_out + s.config.referral_reward + s.config.platform_fee
    &&& s2.members@.contains_key(address@)
    &&& is_new_member(m, address, referrer, now, method)
    &&& s2.members@ == match referrer {
        Some(r) => s.members@.insert(address@, m).insert(r@, credited(s.members@[r@], s.config.referral_reward)),
        None => s.members@.insert(address@, m),
    }
}

/// Registers `sender` and passes the entry fee on. Shared by join and claim.
fn admit_member(state: &mut State, now: u64, sender: &String, referrer: Option<String>, method: &str) -> (r: Result<Vec<Transfer>, ContractError>)
    requires
        old(state).wf(),
        !old(state).members@.contains_key(sender@),
        referrer_error(*old(state), sender@, referrer) is None,
    ensures
        final(state).wf(),
        admission_fits(*old(state), referrer) ==> (r matches Ok(t) && t@ == entry_transfers(old(state).config, referrer)
            && admitted(*old(state), *final(state), *sender, referrer, now, method@)),
        !admission_fits(*old(state), referrer) ==> r == Err::<Vec<Transfer>, ContractError>(ContractError::Overflow {})
            && *final(state) == *old(state),
{
    let total_members = match state.total_members.checked_add(1) {
        Some(t) => t,
        None => {
            return Err(ContractError::Overflow {});
        },
    };
    let paid = match state.config.referral_reward.checked_add(state.config.platform_fee) {
        Some(p) => p,
        None => {
            return Err(ContractError::Overflow {});
        },
    };
    let total_paid_out = match state.total_paid_out.checked_add(paid) {
        Some(t) => t,
        None => {
            return Err(ContractError::Overflow {});
        },
    };
    let credit = match &referrer {
        Some(r) => {
            let ri = match state.members.find(r) {
                Some(i) => i,
                None => vstd::pervasive::unreached(),
            };
            let m = state.members.value_at(ri);
            let count = match m.referral_count.checked_add(1) {
                Some(c) => c,
                None => {
                    return Err(ContractError::Overflow {});
                },
            };
            let earned = match m.total_earned.checked_add(state.config.referral_reward) {
                Some(e) => e,
                None => {
                    return Err(ContractError::Overflow {});
                },
            };
            Some((r.clone(), Member { referral_count: count, total_earned: earned, ..m.clone() }))
        },
        None => None,
    };
    let member = Member {
        address: sender.clone(),
        referrer: clone_opt(&referrer),
        joined_at: now,
        referral_count: 0,
        total_earned: 0,
        payment_method: Some(String::from_str(method)),
        distributed: Some(true),
    };
    let ghost m = member;
    state.members.insert(sender.clone(), member);
    let ghost mid = state.members@;
    let c = &state.config;
    let fee = Transfer { to_address: c.platform_address.clone(), denom: c.usdc_denom.clone(), amount: c.platform_fee };
    let mut transfers: Vec<Transfer> = Vec::new();
    match referrer {
        Some(r) => {
            transfers.push(Transfer { to_address: r, denom: c.usdc_denom.clone(), amount: c.referral_reward });
            transfers.push(fee);
        },
        None => {
            transfers.push(fee);
            transfers.push(Transfer { to_address: c.platform_address.clone(), denom: c.usdc_denom.clone(), amount: c.referral_reward });
        },
    }
    if let Some((key, updated)) = credit {
        state.members.insert(key, updated);
    }
    state.total_members = total_members;
    state.total_paid_out = total_paid_out;
    proof {
        assert(transfers@ =~= entry_transfers(old(state).config, referrer));
        if referrer is Some {
            assert(referrer->Some_0@ != sender@);
            assert(state.members@[sender@] == m);
        }
    }
    Ok(transfers)
}

/// The id of the token minted for the `n`-th member.
pub open spec fn token_id_of(n: nat) -> Seq<char> {
    "pyramid-"@ + decimal(n)
}

/// The mint instruction for `token_id`, owned by `owner`.
pub fn create_cw721_mint_msg(nft_contract: &String, token_id: String, owner: &String) -> (r: MintCall)
    ensures
        r == (MintCall { contract_addr: *nft_contract, token_id, owner: *owner }),
{
    MintCall { contract_addr: nft_contract.clone(), token_id, owner: owner.clone() }
}

pub open spec fn join_error(s: State, info: MessageInfo, referrer: Option<String>) -> Option<ContractError> {
    if s.members@.contains_key(info.sender@) {
        Some(ContractError::AlreadyMember {})
    } else {
        match first_payment(info.funds@, s.config.usdc_denom@) {
            None => Some(ContractError::NoPayment {}),
            Some(p) => if p < s.config.entry_fee {
                Some(ContractError::InvalidPayment { expected: s.config.entry_fee, received: p, denom: s.config.usdc_denom })
            } else if referrer_error(s, info.sender@, referrer) is Some {
                referrer_error(s, info.sender@, referrer)
            } else if !admission_fits(s, referrer) {
                Some(ContractError::Overflow {})
            } else {
                None
            },
        }
    }
}

/// The mint that a join asks for: a token numbered by the new member count,
/// when a token contract is configured.
pub open spec fn join_mint(s: State, sender: String, mint: Option<MintCall>) -> bool {
    match s.config.nft_contract {
        Some(c) => mint matches Some(m) && m.contract_addr == c && m.owner == sender
            && m.token_id@ == token_id_of((s.total_members + 1) as nat),
        None => mint is None,
    }
}

/// Joins with a direct payment of at least the entry fee, passes the fee on,
/// and asks for a membership token when a token contract is configured.
pub fn execute_join(state: &mut State, env: &Env, info: &MessageInfo, referrer: Option<String>) -> (r: Result<Payouts, ContractError>)
    requires
        old(state).wf(),
    ensures
        final(state).wf(),
        match join_error(*old(state), *info, referrer) {
            Some(err) => r == Err::<Payouts, ContractError>(err) && *final(state) == *old(state),
            None => r matches Ok(p) && p.transfers@ == entry_transfers(old(state).config, referrer)
                && join_mint(*old(state), info.sender, p.mint)
                && admitted(*old(state), *final(state), info.sender, referrer, env.block_time, "usdc"@),
        },
{
    if state.members.contains(&info.sender) {
        return Err(ContractError::AlreadyMember {});
    }
    let paid = match find_payment(&info.funds, &state.config.usdc_denom) {
        Some(p) => p,
        None => {
            return Err(ContractError::NoPayment {});
        },
    };
    if paid < state.config.entry_fee {
        return Err(ContractError::InvalidPayment {
            expected: state.config.entry_fee,
            received: paid,
            denom: state.config.usdc_denom.clone(),
        });
    }
    if let Some(r) = &referrer {
        if *r == info.sender {
            return Err(ContractError::SelfReferral {});
        }
        if !state.members.contains(r) {
            return Err(ContractError::ReferrerNotFound {});
        }
    }
    let transfers = admit_member(state, env.block_time, &info.sender, referrer, "usdc")?;
    let mint = match &state.config.nft_contract {
        Some(nft) => {
            let mut token_id = String::from_str("pyramid-");
            push_decimal(&mut token_id, state.total_members);
            Some(create_cw721_mint_msg(nft, token_id, &info.sender))
        },
        None => None,
    };
    Ok(Payouts { transfers, mint })
}

pub open spec fn claim_error(s: State, env: Env, sender: Seq<char>, referrer: Option<String>, holds_token: bool) -> Option<ContractError> {
    if s.config.crossmint_nft_contract is None {
        Some(ContractError::NftContractNotConfigured {})
    } else if s.members@.contains_key(sender) {
        Some(ContractError::AlreadyMember {})
    } else if !holds_token {
        Some(ContractError::NoNftOwnership {})
    } else if referrer_error(s, sender, referrer) is Some {
        referrer_error(s, sender, referrer)
    } else if env.contract_balance < s.config.entry_fee {
        Some(ContractError::InsufficientBalance { needed: s.config.entry_fee, available: env.contract_balance })
    } else if !admission_fits(s, referrer) {
        Some(ContractError::Overflow {})
    } else {
        None
    }
}

/// Registers a member who paid elsewhere. `holds_token` says whether the
/// sender holds a token of the configured claim contract; the entry fee is
/// passed on from the contract's own balance.
pub fn execute_claim(state: &mut State, env: &Env, info: &MessageInfo, referrer: Option<String>, holds_token: bool) -> (r: Result<Vec<Transfer>, ContractError>)
    requires
        old(state).wf(),
    ensures
        final(state).wf(),
        match claim_error(*old(state), *env, info.sender@, referrer, holds_token) {
            Some(err) => r == Err::<Vec<Transfer>, ContractError>(err) && *final(state) == *old(state),
            None => r matches Ok(t) && t@ == entry_transfers(old(state).config, referrer)
                && admitted(*old(state), *final(state), info.sender, referrer, env.block_time, "crossmint"@),
        },
{
    if state.config.crossmint_nft_contract.is_none() {
        return Err(ContractError::NftContractNotConfigured {});
    }
    if state.members.contains(&info.sender) {
        return Err(ContractError::AlreadyMember {});
    }
    if !holds_token {
        return Err(ContractError::NoNftOwnership {});
    }
    if let Some(r) = &referrer {
        if *r == info.sender {
            return Err(ContractError::SelfReferral {});
        }
        if !state.members.contains(r) {
            return Err(ContractError::ReferrerNotFound {});
        }
    }
    if env.contract_balance < state.config.entry_fee {
        return Err(ContractError::InsufficientBalance { needed: state.config.entry_fee, available: env.contract_balance });
    }
    admit_member(state, env.block_time, &info.sender, referrer, "crossmint")
}


/// The configuration with each given field replaced.
pub open spec fn updated_config(
    c: Config,
    platform_address: Option<String>,
    entry_fee: Option<u128>,
    referral_reward: Option<u128>,
    platform_fee: Option<u128>,
    nft_contract: Option<String>,
    crossmint_nft_contract: Option<String>,
) -> Config {
    Config {
        platform_address: match platform_address { Some(v) => v, None => c.platform_address },
        entry_fee: match entry_fee { Some(v) => v, None => c.entry_fee },
        referral_reward: match referral_reward { Some(v) => v, None => c.referral_reward },
        platform_fee: match platform_fee { Some(v) => v, None => c.platform_fee },
        nft_contract: if nft_contract is Some { nft_contract } else { c.nft_contract },
        crossmint_nft_contract: if crossmint_nft_contract is Some { crossmint_nft_contract } else { c.crossmint_nft_contract },
        ..c
    }
}

/// Admin only: replaces each configuration field that is given.
pub fn execute_update_config(
    state: &mut State,
    info: &MessageInfo,
    platform_address: Option<String>,
    entry_fee: Option<u128>,
    referral_reward: Option<u128>,
    platform_fee: Option<u128>,
    nft_contract: Option<String>,
    crossmint_nft_contract: Option<String>,
) -> (r: Result<(), ContractError>)
    requires
        old(state).wf(),
    ensures
        final(state).wf(),
        info.sender@ != old(state).config.admin@ ==> r == Err::<(), ContractError>(ContractError::Unauthorized {})
            && *final(state) == *old(state),
        info.sender@ == old(state).config.admin@ ==> r is Ok && *final(state) == (State {
            config: updated_config(old(state).config, platform_address, entry_fee, referral_reward, platform_fee, nft_contract, crossmint_nft_contract),
            ..*old(state)
        }),
{
    if info.sender != state.config.admin {
        return Err(ContractError::Unauthorized {});
    }
    if let Some(addr) = platform_address {
        state.config.platform_address = addr;
    }
    if let Some(fee) = entry_fee {
        state.config.entry_fee = fee;
    }
    if let Some(reward) = referral_reward {
        state.config.referral_reward = reward;
    }
    if let Some(fee) = platform_fee {
        state.config.platform_fee = fee;
    }
    if let Some(addr) = nft_contract {
        state.config.nft_contract = Some(addr);
    }
    if let Some(addr) = crossmint_nft_contract {
        state.config.crossmint_nft_contract = Some(addr);
    }
    Ok(())
}

/// A new membership service administered by `admin`, with no members.
pub fn instantiate(admin: String, msg: InstantiateMsg) -> (r: State)
    ensures
        r.wf(),
        r.config == (Config {
            admin,
            platform_address: msg.platform_address,
            usdc_denom: msg.usdc_denom,
            entry_fee: msg.entry_fee,
            referral_reward: msg.referral_reward,
            platform_fee: msg.platform_fee,
            nft_contract: msg.nft_contract,
            crossmint_nft_contract: msg.crossmint_nft_contract,
        }),
        r.members@ == Map::<Seq<char>, Member>::empty(),
        r.total_members == 0,
        r.total_paid_out == 0,
{
    State {
        config: Config {
            admin,
            platform_address: msg.platform_address,
            usdc_denom: msg.usdc_denom,
            entry_fee: msg.entry_fee,
            referral_reward: msg.referral_reward,
            platform_fee: msg.platform_fee,
            nft_contract: msg.nft_contract,
            crossmint_nft_contract: msg.crossmint_nft_contract,
        },
        members: Table::new(),
        total_members: 0,
        total_paid_out: 0,
    }
}

/// Runs one execute message. `holds_token` is read only by a claim: whether
/// the sender holds a token of the claim contract.
pub fn execute(state: &mut State, env: &Env, info: &MessageInfo, msg: ExecuteMsg, holds_token: bool) -> (r: Result<Payouts, ContractError>)
    requires
        old(state).wf(),
    ensures
        final(state).wf(),
        r is Err ==> *final(state) == *old(state),
        match msg {
            ExecuteMsg::Join { referrer } => match join_error(*old(state), *info, referrer) {
                Some(err) => r == Err::<Payouts, ContractError>(err),
                None => r matches Ok(p) && p.transfers@ == entry_transfers(old(state).config, referrer)
                    && join_mint(*old(state), info.sender, p.mint)
                    && admitted(*old(state), *final(state), info.sender, referrer, env.block_time, "usdc"@),
            },
            ExecuteMsg::Claim { referrer } => match claim_error(*old(state), *env, info.sender@, referrer, holds_token) {
                Some(err) => r == Err::<Payouts, ContractError>(err),
                None => r matches Ok(p) && p.transfers@ == entry_transfers(old(state).config, referrer) && p.mint is None
                    && admitted(*old(state), *final(state), info.sender, referrer, env.block_time, "crossmint"@),
            },
            ExecuteMsg::UpdateConfig { platform_address, entry_fee, referral_reward, platform_fee, nft_contract, crossmint_nft_contract } =>
                if info.sender@ != old(state).config.admin@ {
                    r == Err::<Payouts, ContractError>(ContractError::Unauthorized {})
                } else {
                    r matches Ok(p) && p.transfers@.len() == 0 && p.mint is None && *final(state) == (State {
                        config: updated_config(old(state).config, platform_address, entry_fee, referral_reward, platform_fee, nft_contract, crossmint_nft_contract),
                        ..*old(state)
                    })
                },
        },
{
    match msg {
        ExecuteMsg::Join { referrer } => execute_join(state, env, info, referrer),
        ExecuteMsg::Claim { referrer } => {
            let transfers = execute_claim(state, env, info, referrer, holds_token)?;
            Ok(Payouts { transfers, mint: None })
        },
        ExecuteMsg::UpdateConfig { platform_address, entry_fee, referral_reward, platform_fee, nft_contract, crossmint_nft_contract } => {
            execute_update_config(state, info, platform_address, entry_fee, referral_reward, platform_fee, nft_contract, crossmint_nft_contract)?;
            Ok(Payouts { transfers: Vec::new(), mint: None })
        },
    }
}

pub open spec fn config_response(c: Config) -> ConfigResponse {
    ConfigResponse {
        admin: c.admin,
        platform_address: c.platform_address,
        usdc_denom: c.usdc_denom,
        entry_fee: c.entry_fee,
        referral_reward: c.referral_reward,
        platform_fee: c.platform_fee,
        nft_contract: c.nft_contract,
        crossmint_nft_contract: c.crossmint_nft_contract,
    }
}

pub fn query_config(state: &State) -> (r: ConfigResponse)
    ensures
        r == config_response(state.config),
{
    let c = state.config.clone();
    ConfigResponse {
        admin: c.admin,
        platform_address: c.platform_address,
        usdc_denom: c.usdc_denom,
        entry_fee: c.entry_fee,
        referral_reward: c.referral_reward,
        platform_fee: c.platform_fee,
        nft_contract: c.nft_contract,
        crossmint_nft_contract: c.crossmint_nft_contract,
    }
}

pub open spec fn member_info(m: Member) -> MemberInfo {
    MemberInfo {
        address: m.address,
        referrer: m.referrer,
        joined_at: m.joined_at,
        referral_count: m.referral_count,
        total_earned: m.total_earned,
        payment_method: m.payment_method,
        distributed: m.distributed,
    }
}

pub open spec fn member_response(s: State, address: Seq<char>) -> MemberResponse {
    if s.members@.contains_key(address) {
        MemberResponse { is_member: true, member: Some(member_info(s.members@[address])) }
    } else {
        MemberResponse { is_member: false, member: None }
    }
}

pub fn query_member(state: &State, address: String) -> (r: MemberResponse)
    requires
        state.wf(),
    ensures
        r == member_response(*state, address@),
{
    match state.members.get(&address) {
        Some(m) => {
            let m = m.clone();
            MemberResponse {
                is_member: true,
                member: Some(MemberInfo {
                    address: m.address,
                    referrer: m.referrer,
                    joined_at: m.joined_at,
                    referral_count: m.referral_count,
                    total_earned: m.total_earned,
                    payment_method: m.payment_method,
                    distributed: m.distributed,
                }),
            }
        },
        None => MemberResponse { is_member: false, member: None },
    }
}

pub fn query_stats(state: &State) -> (r: StatsResponse)
    ensures
        r == (StatsResponse { total_members: state.total_members, total_paid_out: state.total_paid_out }),
{
    StatsResponse { total_members: state.total_members, total_paid_out: state.total_paid_out }
}

/// A member's referral count and earnings; zeros for a non-member.
pub open spec fn referrals_response(s: State, address: Seq<char>) -> ReferralsResponse {
    if s.members@.contains_key(address) {
        ReferralsResponse {
            referral_count: s.members@[address].referral_count,
            total_earned: s.members@[address].total_earned,
        }
    } else {
        ReferralsResponse { referral_count: 0, total_earned: 0 }
    }
}

pub fn query_referrals(state: &State, address: String) -> (r: ReferralsResponse)
    requires
        state.wf(),
    ensures
        r == referrals_response(*state, address@),
{
    match state.members.get(&address) {
        Some(m) => ReferralsResponse { referral_count: m.referral_count, total_earned: m.total_earned },
        None => ReferralsResponse { referral_count: 0, total_earned: 0 },
    }
}

/// Answers one query; none fails.
pub fn query(state: &State, msg: QueryMsg) -> (r: QueryResponse)
    requires
        state.wf(),
    ensures
        r == match msg {
            QueryMsg::Config {} => QueryResponse::Config(config_response(state.config)),
            QueryMsg::Member { address } => QueryResponse::Member(member_response(*state, address@)),
            QueryMsg::Stats {} => QueryResponse::Stats(StatsResponse { total_members: state.total_members, total_paid_out: state.total_paid_out }),
            QueryMsg::Referrals { address } => QueryResponse::Referrals(referrals_response(*state, address@)),
        },
{
    match msg {
        QueryMsg::Config {} => QueryResponse::Config(query_config(state)),
        QueryMsg::Member { address } => QueryResponse::Member(query_member(state, address)),
        QueryMsg::Stats {} => QueryResponse::Stats(query_stats(state)),
        QueryMsg::Referrals { address } => QueryResponse::Referrals(query_referrals(state, address)),
    }
}

/// A migration keeps the state as it is: both token contracts stay as they
/// were, set or not.
pub fn migrate(state: &mut State, _msg: MigrateMsg) -> (r: Result<(), ContractError>)
    ensures
        r is Ok,
        *final(state) == *old(state),
{
    Ok(())
}

} // verus!
