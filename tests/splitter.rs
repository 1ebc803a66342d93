use wager_contracts::chain::{Coin, Env, MessageInfo, Transfer};
use wager_contracts::pyramid_splitter::contract::{
    execute, execute_claim, execute_join, execute_update_config, instantiate, query, query_member,
    query_referrals, query_stats,
};
use wager_contracts::pyramid_splitter::error::ContractError;
use wager_contracts::pyramid_splitter::msg::{ExecuteMsg, InstantiateMsg, QueryMsg, QueryResponse};
use wager_contracts::pyramid_splitter::state::State;

const DENOM: &str = "uusdc";

fn paid(sender: &str, amount: u128) -> MessageInfo {
    MessageInfo { sender: sender.to_string(), funds: vec![Coin { denom: DENOM.to_string(), amount }] }
}

fn env(time: u64) -> Env {
    Env { block_time: time, contract_balance: 100_000_000 }
}

fn setup(nft: bool, claims: bool) -> State {
    instantiate(
        "admin".to_string(),
        InstantiateMsg {
            platform_address: "platform".to_string(),
            usdc_denom: DENOM.to_string(),
            entry_fee: 8_000_000,
            referral_reward: 5_000_000,
            platform_fee: 3_000_000,
            nft_contract: if nft { Some("nft".to_string()) } else { None },
            crossmint_nft_contract: if claims { Some("crossmint".to_string()) } else { None },
        },
    )
}

fn flat(t: &[Transfer]) -> Vec<(String, u128)> {
    t.iter().map(|t| (t.to_address.clone(), t.amount)).collect()
}

#[test]
fn join_without_referrer_pays_platform() {
    let mut s = setup(true, false);
    let out = execute_join(&mut s, &env(5), &paid("alice", 8_000_000), None).unwrap();
    assert_eq!(flat(&out.transfers), vec![("platform".to_string(), 3_000_000), ("platform".to_string(), 5_000_000)]);
    let mint = out.mint.unwrap();
    assert_eq!(mint.contract_addr, "nft");
    assert_eq!(mint.token_id, "pyramid-1");
    assert_eq!(mint.owner, "alice");
    let m = query_member(&s, "alice".to_string());
    assert!(m.is_member);
    let info = m.member.unwrap();
    assert_eq!(info.joined_at, 5);
    assert_eq!(info.payment_method.as_deref(), Some("usdc"));
    assert_eq!(info.distributed, Some(true));
    let st = query_stats(&s);
    assert_eq!((st.total_members, st.total_paid_out), (1, 8_000_000));
}

#[test]
fn join_with_referrer_rewards_referrer() {
    let mut s = setup(true, false);
    execute_join(&mut s, &env(5), &paid("alice", 8_000_000), None).unwrap();
    let out = execute_join(&mut s, &env(6), &paid("bob", 9_000_000), Some("alice".to_string())).unwrap();
    assert_eq!(flat(&out.transfers), vec![("alice".to_string(), 5_000_000), ("platform".to_string(), 3_000_000)]);
    assert_eq!(out.mint.unwrap().token_id, "pyramid-2");
    let r = query_referrals(&s, "alice".to_string());
    assert_eq!((r.referral_count, r.total_earned), (1, 5_000_000));
    let r = query_referrals(&s, "nobody".to_string());
    assert_eq!((r.referral_count, r.total_earned), (0, 0));
    assert_eq!(query_member(&s, "bob".to_string()).member.unwrap().referrer.as_deref(), Some("alice"));
}

#[test]
fn join_errors() {
    let mut s = setup(false, false);
    let e = execute_join(&mut s, &env(1), &MessageInfo { sender: "alice".to_string(), funds: vec![] }, None).unwrap_err();
    assert!(matches!(e, ContractError::NoPayment {}));
    let e = execute_join(&mut s, &env(1), &paid("alice", 7_999_999), None).unwrap_err();
    assert!(matches!(e, ContractError::InvalidPayment { expected: 8_000_000, received: 7_999_999, .. }));
    let e = execute_join(&mut s, &env(1), &paid("alice", 8_000_000), Some("alice".to_string())).unwrap_err();
    assert!(matches!(e, ContractError::SelfReferral {}));
    let e = execute_join(&mut s, &env(1), &paid("alice", 8_000_000), Some("bob".to_string())).unwrap_err();
    assert!(matches!(e, ContractError::ReferrerNotFound {}));
    let out = execute_join(&mut s, &env(1), &paid("alice", 8_000_000), None).unwrap();
    assert!(out.mint.is_none());
    let e = execute_join(&mut s, &env(2), &paid("alice", 8_000_000), None).unwrap_err();
    assert!(matches!(e, ContractError::AlreadyMember {}));
    assert_eq!(query_stats(&s).total_members, 1);
}

#[test]
fn claim_rules() {
    let mut s = setup(false, false);
    let e = execute_claim(&mut s, &env(1), &paid("alice", 0), None, true).unwrap_err();
    assert!(matches!(e, ContractError::NftContractNotConfigured {}));
    let mut s = setup(false, true);
    let e = execute_claim(&mut s, &env(1), &paid("alice", 0), None, false).unwrap_err();
    assert!(matches!(e, ContractError::NoNftOwnership {}));
    let poor = Env { block_time: 1, contract_balance: 7_000_000 };
    let e = execute_claim(&mut s, &poor, &paid("alice", 0), None, true).unwrap_err();
    assert!(matches!(e, ContractError::InsufficientBalance { needed: 8_000_000, available: 7_000_000 }));
    let t = execute_claim(&mut s, &env(3), &paid("alice", 0), None, true).unwrap();
    assert_eq!(flat(&t), vec![("platform".to_string(), 3_000_000), ("platform".to_string(), 5_000_000)]);
    assert_eq!(query_member(&s, "alice".to_string()).member.unwrap().payment_method.as_deref(), Some("crossmint"));
    let e = execute_claim(&mut s, &env(4), &paid("alice", 0), None, true).unwrap_err();
    assert!(matches!(e, ContractError::AlreadyMember {}));
    let t = execute_claim(&mut s, &env(5), &paid("bob", 0), Some("alice".to_string()), true).unwrap();
    assert_eq!(flat(&t), vec![("alice".to_string(), 5_000_000), ("platform".to_string(), 3_000_000)]);
}

#[test]
fn dispatch_and_queries() {
    let mut s = setup(false, false);
    let e = execute(&mut s, &env(1), &paid("alice", 0), ExecuteMsg::UpdateConfig {
        platform_address: None, entry_fee: Some(1), referral_reward: None, platform_fee: None, nft_contract: None, crossmint_nft_contract: None,
    }, false).unwrap_err();
    assert!(matches!(e, ContractError::Unauthorized {}));
    execute_update_config(&mut s, &paid("admin", 0), Some("vault".to_string()), Some(10), Some(6), Some(4), None, Some("cm".to_string())).unwrap();
    let out = execute(&mut s, &env(2), &paid("alice", 10), ExecuteMsg::Join { referrer: None }, false).unwrap();
    assert_eq!(flat(&out.transfers), vec![("vault".to_string(), 4), ("vault".to_string(), 6)]);
    match query(&s, QueryMsg::Stats {}) {
        QueryResponse::Stats(st) => assert_eq!((st.total_members, st.total_paid_out), (1, 10)),
        _ => panic!("wrong answer"),
    }
    match query(&s, QueryMsg::Config {}) {
        QueryResponse::Config(c) => {
            assert_eq!(c.platform_address, "vault");
            assert_eq!(c.crossmint_nft_contract.as_deref(), Some("cm"));
            assert_eq!(c.nft_contract, None);
        },
        _ => panic!("wrong answer"),
    }
    match query(&s, QueryMsg::Member { address: "zed".to_string() }) {
        QueryResponse::Member(m) => assert!(!m.is_member && m.member.is_none()),
        _ => panic!("wrong answer"),
    }
}
