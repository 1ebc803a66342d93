use wager_contracts::backgammon_game::contract::{
    ensure_player_stats, execute, execute_create_game, execute_report_abandonment,
    execute_report_result, execute_start_game, execute_update_config, game_id_for, instantiate,
    parse_result, query, query_game, query_player_games, query_player_stats, query_stats,
};
use wager_contracts::backgammon_game::error::ContractError;
use wager_contracts::backgammon_game::msg::{EscrowCall, ExecuteMsg, InstantiateMsg, QueryMsg, QueryResponse};
use wager_contracts::backgammon_game::rating::{
    rating_after_loss, rating_after_win, record_loss, record_win, DEFAULT_RATING, MIN_RATING,
};
use wager_contracts::backgammon_game::state::{GameStatus, PlayerStats, ResultType, State};
use wager_contracts::chain::{Coin, Env, MessageInfo};
use wager_contracts::table::Table;
use wager_contracts::wager_escrow;
use wager_contracts::wager_escrow::msg::ExecuteMsg as EscrowMsg;

fn info(sender: &str) -> MessageInfo {
    MessageInfo { sender: sender.to_string(), funds: vec![] }
}

fn env(time: u64) -> Env {
    Env { block_time: time, contract_balance: 0 }
}

fn setup(escrow: bool) -> State {
    instantiate(
        "admin".to_string(),
        InstantiateMsg {
            escrow_contract: if escrow { Some("escrow".to_string()) } else { None },
            server_address: Some("server".to_string()),
            usdc_denom: "uusdc".to_string(),
        },
    )
}

fn create(s: &mut State, a: &str, b: &str, stake: u128) -> Option<EscrowCall> {
    execute_create_game(s, &env(100), &info(a), b.to_string(), stake).unwrap()
}

fn settle_parts(call: &EscrowCall) -> (String, String, u32) {
    match &call.msg {
        EscrowMsg::Settle { game_id, winner } => (game_id.clone(), winner.clone(), 1),
        EscrowMsg::SettleWithMultiplier { game_id, winner, multiplier } => (game_id.clone(), winner.clone(), *multiplier),
        other => panic!("not a settlement: {:?}", other),
    }
}

#[test]
fn create_match_against_self_fails() {
    let mut s = setup(true);
    let e = execute_create_game(&mut s, &env(1), &info("alice"), "alice".to_string(), 5_000).unwrap_err();
    assert!(matches!(e, ContractError::SelfPlay {}));
    assert_eq!(query_stats(&s).total_games, 0);
}

#[test]
fn game_ids_count_up() {
    let mut s = setup(false);
    assert!(create(&mut s, "alice", "bob", 0).is_none());
    create(&mut s, "bob", "carol", 0);
    assert_eq!(query_game(&s, "game-1".to_string()).unwrap().player_a, "alice");
    assert_eq!(query_game(&s, "game-2".to_string()).unwrap().player_b, "carol");
    assert_eq!(query_stats(&s).total_games, 2);
    assert_eq!(s.game_counter, 2);
    assert_eq!(game_id_for(0), "game-0");
    assert_eq!(game_id_for(1234567890), "game-1234567890");
    assert_eq!(game_id_for(u64::MAX), format!("game-{}", u64::MAX));
}

#[test]
fn create_match_opens_escrow() {
    let mut s = setup(true);
    let call = create(&mut s, "alice", "bob", 7_000).unwrap();
    assert_eq!(call.contract_addr, "escrow");
    match call.msg {
        EscrowMsg::CreateEscrow { game_id, player_a, player_b, wager_amount } => {
            assert_eq!(game_id, "game-1");
            assert_eq!(player_a, "alice");
            assert_eq!(player_b, "bob");
            assert_eq!(wager_amount, 7_000);
        },
        other => panic!("unexpected {:?}", other),
    }
    let g = query_game(&s, "game-1".to_string()).unwrap();
    assert_eq!(g.status, "Created");
    assert_eq!(g.created_at, 100);
    assert_eq!(g.result_type, None);
    assert_eq!(query_player_stats(&s, "bob".to_string()).rating, DEFAULT_RATING);
}

#[test]
fn winner_and_loser_ratings() {
    let mut s = setup(false);
    create(&mut s, "alice", "bob", 1_000);
    execute_report_result(&mut s, &env(200), &info("server"), "game-1".to_string(), "alice".to_string(), "normal".to_string(), 42).unwrap();
    let a = query_player_stats(&s, "alice".to_string());
    let b = query_player_stats(&s, "bob".to_string());
    assert_eq!(a.rating, 151_000);
    assert_eq!((a.games_played, a.games_won, a.total_wagered, a.total_won), (1, 1, 1_000, 2_000));
    assert_eq!(b.rating, 149_000);
    assert_eq!((b.games_played, b.games_won, b.total_wagered, b.total_won), (1, 0, 1_000, 0));
    let g = query_game(&s, "game-1".to_string()).unwrap();
    assert_eq!(g.status, "Completed");
    assert_eq!(g.winner.as_deref(), Some("alice"));
    assert_eq!(g.result_type.as_deref(), Some("Normal"));
    assert_eq!(g.completed_at, Some(200));
    assert_eq!(g.move_count, 42);
}

#[test]
fn loser_rating_stops_at_floor() {
    let mut s = setup(false);
    for i in 1..=52u64 {
        create(&mut s, "alice", "bob", 0);
        execute_report_result(&mut s, &env(200), &info("admin"), format!("game-{}", i), "alice".to_string(), "normal".to_string(), 1).unwrap();
        let b = query_player_stats(&s, "bob".to_string()).rating;
        assert!(b >= MIN_RATING);
        if i == 50 {
            assert_eq!(b, 100_000);
        }
    }
    assert_eq!(query_player_stats(&s, "bob".to_string()).rating, 100_000);
    assert_eq!(query_player_stats(&s, "alice".to_string()).rating, 150_000 + 52 * 1_000);
}

#[test]
fn rating_steps() {
    assert_eq!(rating_after_win(150_000), 151_000);
    assert_eq!(rating_after_win(u32::MAX - 10), u32::MAX);
    assert_eq!(rating_after_loss(150_000), 149_000);
    assert_eq!(rating_after_loss(100_000), 100_000);
    assert_eq!(rating_after_loss(100_500), 100_000);
    assert_eq!(rating_after_loss(500), 100_000);
}

#[test]
fn record_statistics_saturate() {
    let full = PlayerStats { address: "x".to_string(), games_played: u32::MAX, games_won: 3, rating: 120_000, total_wagered: 0, total_won: 0 };
    let w = record_win(&full, 1);
    assert_eq!((w.games_played, w.games_won, w.rating, w.total_wagered, w.total_won), (u32::MAX, 4, 121_000, 1, 2));
    let l = record_loss(&full, 1);
    assert_eq!((l.games_played, l.games_won, l.rating, l.total_wagered), (u32::MAX, 3, 119_000, 1));
    let rich = PlayerStats { address: "x".to_string(), games_played: 0, games_won: 0, rating: 0, total_wagered: u128::MAX - 1, total_won: u128::MAX - 1 };
    let w = record_win(&rich, 1);
    assert_eq!((w.total_wagered, w.total_won, w.rating), (u128::MAX, u128::MAX, 1_000));
    let w = record_win(&PlayerStats { address: "x".to_string(), games_played: 0, games_won: 0, rating: 0, total_wagered: 0, total_won: 5 }, u128::MAX / 2 + 1);
    assert_eq!(w.total_won, u128::MAX);
}

#[test]
fn result_category_sets_multiplier() {
    for (name, mult, label) in [("normal", 1u32, "Normal"), ("gammon", 2, "Gammon"), ("backgammon", 3, "Backgammon")] {
        let mut s = setup(true);
        create(&mut s, "alice", "bob", 5_000);
        let call = execute_report_result(&mut s, &env(200), &info("server"), "game-1".to_string(), "bob".to_string(), name.to_string(), 9).unwrap().unwrap();
        assert_eq!(call.contract_addr, "escrow");
        assert_eq!(settle_parts(&call), ("game-1".to_string(), "bob".to_string(), mult));
        if mult == 1 {
            assert!(matches!(call.msg, EscrowMsg::Settle { .. }));
        }
        assert_eq!(query_game(&s, "game-1".to_string()).unwrap().result_type.as_deref(), Some(label));
    }
    assert_eq!(parse_result(&"gammon".to_string()), Some(ResultType::Gammon));
    assert_eq!(parse_result(&"Gammon".to_string()), None);
}

#[test]
fn no_settlement_without_stake_or_escrow() {
    let mut s = setup(true);
    create(&mut s, "alice", "bob", 0);
    assert!(execute_report_result(&mut s, &env(2), &info("server"), "game-1".to_string(), "bob".to_string(), "normal".to_string(), 1).unwrap().is_none());
    let mut s = setup(false);
    create(&mut s, "alice", "bob", 10);
    assert!(execute_report_result(&mut s, &env(2), &info("server"), "game-1".to_string(), "bob".to_string(), "normal".to_string(), 1).unwrap().is_none());
}

#[test]
fn report_result_errors() {
    let mut s = setup(true);
    create(&mut s, "alice", "bob", 5_000);
    let e = execute_report_result(&mut s, &env(2), &info("alice"), "game-1".to_string(), "alice".to_string(), "normal".to_string(), 1).unwrap_err();
    assert!(matches!(e, ContractError::Unauthorized {}));
    let e = execute_report_result(&mut s, &env(2), &info("server"), "game-9".to_string(), "alice".to_string(), "normal".to_string(), 1).unwrap_err();
    assert!(matches!(e, ContractError::GameNotFound { game_id } if game_id == "game-9"));
    let e = execute_report_result(&mut s, &env(2), &info("server"), "game-1".to_string(), "carol".to_string(), "normal".to_string(), 1).unwrap_err();
    assert!(matches!(e, ContractError::InvalidWinner {}));
    let e = execute_report_result(&mut s, &env(2), &info("server"), "game-1".to_string(), "alice".to_string(), "triple".to_string(), 1).unwrap_err();
    assert!(matches!(e, ContractError::InvalidResultType { result_type } if result_type == "triple"));
    execute_report_result(&mut s, &env(2), &info("server"), "game-1".to_string(), "alice".to_string(), "normal".to_string(), 1).unwrap();
    let e = execute_report_result(&mut s, &env(3), &info("server"), "game-1".to_string(), "alice".to_string(), "normal".to_string(), 1).unwrap_err();
    assert!(matches!(e, ContractError::InvalidGameStatus { expected: "Created or InProgress", got: GameStatus::Completed }));
    assert_eq!(query_player_stats(&s, "alice".to_string()).games_played, 1);
}

#[test]
fn start_match_rules() {
    let mut s = setup(false);
    create(&mut s, "alice", "bob", 0);
    let e = execute_start_game(&mut s, &info("bob"), "game-1".to_string()).unwrap_err();
    assert!(matches!(e, ContractError::Unauthorized {}));
    execute_start_game(&mut s, &info("server"), "game-1".to_string()).unwrap();
    assert_eq!(query_game(&s, "game-1".to_string()).unwrap().status, "InProgress");
    let e = execute_start_game(&mut s, &info("admin"), "game-1".to_string()).unwrap_err();
    assert!(matches!(e, ContractError::InvalidGameStatus { expected: "Created", got: GameStatus::InProgress }));
    execute_report_result(&mut s, &env(5), &info("admin"), "game-1".to_string(), "bob".to_string(), "gammon".to_string(), 3).unwrap();
}

#[test]
fn abandonment_makes_other_player_winner() {
    let mut s = setup(true);
    create(&mut s, "alice", "bob", 5_000);
    let call = execute_report_abandonment(&mut s, &env(300), &info("server"), "game-1".to_string(), "alice".to_string()).unwrap().unwrap();
    assert!(matches!(call.msg, EscrowMsg::Settle { .. }));
    assert_eq!(settle_parts(&call), ("game-1".to_string(), "bob".to_string(), 1));
    let g = query_game(&s, "game-1".to_string()).unwrap();
    assert_eq!(g.status, "Abandoned");
    assert_eq!(g.winner.as_deref(), Some("bob"));
    assert_eq!(g.result_type.as_deref(), Some("Normal"));
    assert_eq!(g.completed_at, Some(300));

    let mut t = setup(true);
    create(&mut t, "alice", "bob", 5_000);
    let normal = execute_report_result(&mut t, &env(300), &info("server"), "game-1".to_string(), "bob".to_string(), "normal".to_string(), 0).unwrap().unwrap();
    assert_eq!(settle_parts(&normal), settle_parts(&call));
    for who in ["alice", "bob"] {
        let x = query_player_stats(&s, who.to_string());
        let y = query_player_stats(&t, who.to_string());
        assert_eq!((x.games_played, x.games_won, x.rating, x.total_wagered, x.total_won), (y.games_played, y.games_won, y.rating, y.total_wagered, y.total_won));
    }
    assert_eq!(query_player_stats(&s, "bob".to_string()).rating, 151_000);
}

#[test]
fn abandonment_errors() {
    let mut s = setup(true);
    create(&mut s, "alice", "bob", 5_000);
    let e = execute_report_abandonment(&mut s, &env(3), &info("server"), "game-1".to_string(), "carol".to_string()).unwrap_err();
    assert!(matches!(e, ContractError::InvalidWinner {}));
    let e = execute_report_abandonment(&mut s, &env(3), &info("carol"), "game-1".to_string(), "alice".to_string()).unwrap_err();
    assert!(matches!(e, ContractError::Unauthorized {}));
    execute_report_abandonment(&mut s, &env(3), &info("admin"), "game-1".to_string(), "bob".to_string()).unwrap();
    let e = execute_report_abandonment(&mut s, &env(4), &info("admin"), "game-1".to_string(), "bob".to_string()).unwrap_err();
    assert!(matches!(e, ContractError::InvalidGameStatus { got: GameStatus::Abandoned, .. }));
}

#[test]
fn player_games_newest_first_with_limit() {
    let mut s = setup(false);
    create(&mut s, "alice", "bob", 0);
    create(&mut s, "carol", "dave", 0);
    create(&mut s, "bob", "carol", 0);
    create(&mut s, "alice", "carol", 0);
    let ids = |l: Vec<wager_contracts::backgammon_game::msg::GameResponse>| l.into_iter().map(|g| g.game_id).collect::<Vec<_>>();
    assert_eq!(ids(query_player_games(&s, "carol".to_string(), None, None).games), vec!["game-4", "game-3", "game-2"]);
    assert_eq!(ids(query_player_games(&s, "carol".to_string(), None, Some(2)).games), vec!["game-4", "game-3"]);
    assert_eq!(ids(query_player_games(&s, "bob".to_string(), Some("game-3".to_string()), None).games), vec!["game-3", "game-1"]);
    assert!(query_player_games(&s, "erin".to_string(), None, None).games.is_empty());
    assert!(query_player_games(&s, "alice".to_string(), None, Some(0)).games.is_empty());
}

#[test]
fn player_games_limit_is_capped() {
    let mut s = setup(false);
    for _ in 0..35 {
        create(&mut s, "alice", "bob", 0);
    }
    assert_eq!(query_player_games(&s, "alice".to_string(), None, None).games.len(), 10);
    assert_eq!(query_player_games(&s, "alice".to_string(), None, Some(100)).games.len(), 30);
    assert_eq!(query_player_games(&s, "alice".to_string(), None, Some(100)).games[0].game_id, "game-35");
}

#[test]
fn unknown_player_gets_default_stats() {
    let s = setup(false);
    let p = query_player_stats(&s, "nobody".to_string());
    assert_eq!(p.address, "nobody");
    assert_eq!((p.games_played, p.games_won, p.rating, p.total_wagered, p.total_won), (0, 0, 150_000, 0, 0));
}

#[test]
fn ensure_player_stats_keeps_existing() {
    let mut t: Table<PlayerStats> = Table::new();
    ensure_player_stats(&mut t, &"alice".to_string());
    t.entries[0].1.rating = 7;
    ensure_player_stats(&mut t, &"alice".to_string());
    assert_eq!(t.len(), 1);
    assert_eq!(t.get(&"alice".to_string()).unwrap().rating, 7);
}

#[test]
fn game_update_config_is_admin_only() {
    let mut s = setup(false);
    let e = execute_update_config(&mut s, &info("server"), Some("escrow".to_string()), None).unwrap_err();
    assert!(matches!(e, ContractError::Unauthorized {}));
    execute_update_config(&mut s, &info("admin"), Some("escrow".to_string()), None).unwrap();
    assert_eq!(s.config.escrow_contract.as_deref(), Some("escrow"));
    assert_eq!(s.config.server_address.as_deref(), Some("server"));
}

#[test]
fn game_instructions_drive_escrow() {
    let mut game = setup(true);
    let mut escrow = wager_escrow::contract::instantiate(
        "admin".to_string(),
        wager_escrow::msg::InstantiateMsg {
            usdc_denom: "uusdc".to_string(),
            rake_bps: 250,
            rake_recipient: "treasury".to_string(),
            min_wager: 1,
            max_wager: 10_000_000,
            timeout_seconds: 60,
            game_contract: Some("game".to_string()),
        },
    );
    let from_game = info("game");
    let open = execute(&mut game, &env(10), &info("alice"), ExecuteMsg::CreateGame { opponent: "bob".to_string(), wager_amount: 1_000_000 }).unwrap().unwrap();
    let escrow_env = Env { block_time: 10, contract_balance: 2_000_000 };
    wager_escrow::contract::execute(&mut escrow, &escrow_env, &from_game, open.msg).unwrap();
    for who in ["alice", "bob"] {
        let paid = MessageInfo { sender: who.to_string(), funds: vec![Coin { denom: "uusdc".to_string(), amount: 1_000_000 }] };
        wager_escrow::contract::execute(&mut escrow, &escrow_env, &paid, EscrowMsg::Deposit { game_id: "game-1".to_string() }).unwrap();
    }
    execute(&mut game, &env(20), &info("server"), ExecuteMsg::StartGame { game_id: "game-1".to_string() }).unwrap();
    let settle = execute(&mut game, &env(30), &info("server"), ExecuteMsg::ReportResult {
        game_id: "game-1".to_string(),
        winner: "bob".to_string(),
        result_type: "backgammon".to_string(),
        move_count: 80,
    }).unwrap().unwrap();
    let t = wager_escrow::contract::execute(&mut escrow, &escrow_env, &from_game, settle.msg).unwrap();
    assert_eq!(t.len(), 2);
    assert_eq!((t[0].to_address.as_str(), t[0].amount), ("bob", 1_950_000));
    assert_eq!((t[1].to_address.as_str(), t[1].amount), ("treasury", 50_000));
    assert_eq!(wager_escrow::contract::query_stats(&escrow).total_rake_collected, 50_000);
}

#[test]
fn game_query_answers_each_message() {
    let mut s = setup(false);
    create(&mut s, "alice", "bob", 40);
    create(&mut s, "bob", "carol", 50);
    match query(&s, QueryMsg::Game { game_id: "game-2".to_string() }).unwrap() {
        QueryResponse::Game(g) => assert_eq!((g.player_a.as_str(), g.wager_amount, g.status.as_str()), ("bob", 50, "Created")),
        other => panic!("unexpected {:?}", other),
    }
    assert!(matches!(query(&s, QueryMsg::Game { game_id: "game-3".to_string() }), Err(ContractError::GameNotFound { game_id }) if game_id == "game-3"));
    match query(&s, QueryMsg::PlayerGames { address: "bob".to_string(), start_after: None, limit: None }).unwrap() {
        QueryResponse::PlayerGames(list) => {
            let ids: Vec<&str> = list.games.iter().map(|g| g.game_id.as_str()).collect();
            assert_eq!(ids, vec!["game-2", "game-1"]);
        },
        other => panic!("unexpected {:?}", other),
    }
    match query(&s, QueryMsg::Stats {}).unwrap() {
        QueryResponse::Stats(st) => assert_eq!(st.total_games, 2),
        other => panic!("unexpected {:?}", other),
    }
}
