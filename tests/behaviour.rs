use cw_arcade::contract::{
    execute, add_members, add_user, admins_list, get_price, instantiate, is_admin, leave, scoreboard,
    update_price,
};
use cw_arcade::error::{ContractError, PaymentFault};
use cw_arcade::msg::{AdminsListResp, ExecuteMsg, GamePriceResp, InstantiateMsg};
use cw_arcade::state::{ArcadeState, Coin, Transfer, User};
use cw_arcade::utils::send_coins;
use std::cmp::Reverse;

const ME: &str = "arcade";

fn s(x: &str) -> String {
    x.to_string()
}

fn arcade(admins: &[&str], max_top_score: u8, price: u128, denom: &str) -> ArcadeState {
    let msg = InstantiateMsg {
        arcade: s("Pac-Man"),
        admins: admins.iter().map(|a| s(a)).collect(),
        max_top_score,
        denom: s(denom),
        price_peer_game: price,
    };
    instantiate(msg, Ok(())).unwrap()
}

fn entry(name: &str, score: u16, addr: &str) -> User {
    User { name: s(name), address: s(addr), score: Reverse(score) }
}

fn coin(denom: &str, amount: u128) -> Coin {
    Coin { denom: s(denom), amount }
}

fn scores(state: &ArcadeState) -> Vec<u16> {
    scoreboard(state).scores.iter().map(|u| u.score.0).collect()
}

#[test]
fn instantiate_sets_every_field() {
    let state = arcade(&["a", "b"], 3, 42, "uatom");
    assert_eq!(state.admins, vec![s("a"), s("b")]);
    assert_eq!(state.arcade, s("Pac-Man"));
    assert_eq!(state.denom, s("uatom"));
    assert_eq!(state.price_peer_game, 42);
    assert_eq!(state.max_top_scores, 3);
    assert!(state.top_users.is_empty());
    assert_eq!(state.game_counter, 0);
    assert_eq!(state.total_distributed, 0);
}

#[test]
fn instantiate_rejected_identifier() {
    let msg = InstantiateMsg {
        arcade: s("Pac-Man"),
        admins: vec![s("BAD")],
        max_top_score: 1,
        denom: s("X"),
        price_peer_game: 1,
    };
    let err = instantiate(msg, Err(s("invalid address"))).unwrap_err();
    assert_eq!(err, ContractError::InvalidAddress { reason: s("invalid address") });
}

#[test]
fn board_fills_to_capacity_then_replaces_worst() {
    let mut state = arcade(&["A"], 3, 1, "X");
    for (i, sc) in [50u16, 10, 30].iter().enumerate() {
        let r = add_user(&mut state, &s("A"), entry("u", *sc, &format!("p{}", i))).unwrap();
        assert_eq!(r, None);
    }
    assert_eq!(scores(&state), vec![50, 10, 30]);
    // 20 beats the worst (10) but not the best: admitted, no prize
    assert_eq!(add_user(&mut state, &s("A"), entry("v", 20, "q")).unwrap(), None);
    assert_eq!(scores(&state), vec![50, 20, 30]);
    // 60 beats everything held: it takes the worst's place and wins the pool
    let w = add_user(&mut state, &s("A"), entry("w", 60, "r")).unwrap();
    assert_eq!(w, Some(entry("w", 60, "r")));
    assert_eq!(scores(&state), vec![50, 60, 30]);
}

#[test]
fn candidate_not_better_than_worst_is_rejected() {
    let mut state = arcade(&["A"], 2, 1, "X");
    add_user(&mut state, &s("A"), entry("a", 40, "a")).unwrap();
    add_user(&mut state, &s("A"), entry("b", 70, "b")).unwrap();
    // equal to the worst: not strictly better
    assert_eq!(add_user(&mut state, &s("A"), entry("c", 40, "c")).unwrap(), None);
    assert_eq!(add_user(&mut state, &s("A"), entry("d", 5, "d")).unwrap(), None);
    assert_eq!(scores(&state), vec![40, 70]);
}

#[test]
fn ties_evict_the_first_lowest() {
    let mut state = arcade(&["A"], 3, 1, "X");
    add_user(&mut state, &s("A"), entry("a", 9, "a")).unwrap();
    add_user(&mut state, &s("A"), entry("b", 4, "b")).unwrap();
    add_user(&mut state, &s("A"), entry("c", 4, "c")).unwrap();
    add_user(&mut state, &s("A"), entry("d", 5, "d")).unwrap();
    let names: Vec<String> = scoreboard(&state).scores.iter().map(|u| u.name.clone()).collect();
    assert_eq!(names, vec![s("a"), s("d"), s("c")]);
}

#[test]
fn zero_capacity_board_stays_empty() {
    let mut state = arcade(&["A"], 0, 1, "X");
    assert_eq!(add_user(&mut state, &s("A"), entry("a", 65535, "a")).unwrap(), None);
    assert!(scoreboard(&state).scores.is_empty());
}

#[test]
fn board_never_exceeds_capacity_and_keeps_floor() {
    let mut state = arcade(&["A"], 4, 1, "X");
    let mut rejected: Vec<u16> = Vec::new();
    for i in 0..200u32 {
        let sc = ((i * 7919) % 1000) as u16;
        let before = scores(&state);
        add_user(&mut state, &s("A"), entry("u", sc, "p")).unwrap();
        let after = scores(&state);
        assert!(after.len() <= 4);
        if before == after && before.len() == 4 {
            rejected.push(sc);
        }
        for r in &rejected {
            assert!(after.iter().all(|held| held >= r));
        }
    }
    assert!(!rejected.is_empty());
}

#[test]
fn non_admin_submission_is_refused_and_changes_nothing() {
    let mut state = arcade(&["A"], 2, 1, "X");
    add_user(&mut state, &s("A"), entry("a", 10, "a")).unwrap();
    let before = state.clone();
    let err = add_user(&mut state, &s("mallory"), entry("m", 999, "m")).unwrap_err();
    assert_eq!(err, ContractError::Unauthorized { sender: s("mallory") });
    assert_eq!(state, before);
}

#[test]
fn first_full_board_scenario_pays_whole_balance() {
    let mut state = arcade(&["A"], 1, 1, "X");
    assert_eq!(add_user(&mut state, &s("A"), entry("one", 299, "acc299")).unwrap(), None);
    let winner = add_user(&mut state, &s("A"), entry("two", 300, "acc300")).unwrap().unwrap();
    let t = send_coins(&mut state, &winner, 5000).unwrap();
    assert_eq!(t, Transfer { to_address: s("acc300"), amount: 5000, denom: s("X") });
    assert_eq!(state.total_distributed, 5000);
    assert_eq!(scoreboard(&state).scores, vec![entry("two", 300, "acc300")]);
}

#[test]
fn payout_accumulates_total() {
    let mut state = arcade(&["A"], 1, 1, "X");
    let w = entry("w", 1, "winner");
    send_coins(&mut state, &w, 7).unwrap();
    send_coins(&mut state, &w, 8).unwrap();
    assert_eq!(state.total_distributed, 15);
}

#[test]
fn empty_pool_payout_twice_is_a_no_op() {
    let mut state = arcade(&["A"], 1, 1, "X");
    let before = state.clone();
    let w = entry("w", 1, "winner");
    assert_eq!(send_coins(&mut state, &w, 0), None);
    assert_eq!(send_coins(&mut state, &w, 0), None);
    assert_eq!(state, before);
}

#[test]
fn single_admin_play_scenario() {
    let mut state = arcade(&["A"], 1, 123, "X");
    let played =
        cw_arcade::contract::play(&mut state, &s("payer"), &s(ME), &vec![coin("X", 333)]).unwrap();
    assert_eq!(state.game_counter, 1);
    assert_eq!(played.received_tokens, 333);
    let t = |to: &str, amount: u128| Transfer { to_address: s(to), amount, denom: s("X") };
    assert_eq!(played.transfers, vec![t("A", 166), t(ME, 166)]);
    // the contract keeps its own share and the remainder of one
    assert_eq!(333 - 166, 167);
}

#[test]
fn exact_payment_leaves_no_remainder() {
    let mut state = arcade(&["A", "B", "C"], 1, 100, "X");
    let played =
        cw_arcade::contract::play(&mut state, &s("p"), &s(ME), &vec![coin("X", 400)]).unwrap();
    assert_eq!(played.transfers.len(), 4);
    assert!(played.transfers.iter().all(|t| t.amount == 100));
    assert_eq!(400 % 4, 0);
}

#[test]
fn share_rounds_down_with_zero_shares_kept() {
    let mut state = arcade(&["A", "B", "C", "D"], 1, 1, "X");
    let played =
        cw_arcade::contract::play(&mut state, &s("p"), &s(ME), &vec![coin("X", 3)]).unwrap();
    assert_eq!(played.transfers.len(), 5);
    assert!(played.transfers.iter().all(|t| t.amount == 0));
}

#[test]
fn underpayment_is_refunded_in_full() {
    let mut state = arcade(&["A"], 1, 123, "X");
    let before = state.clone();
    let err = cw_arcade::contract::play(&mut state, &s("payer"), &s(ME), &vec![coin("X", 122)])
        .unwrap_err();
    assert_eq!(
        err,
        ContractError::InsufficientPayment {
            refund: Transfer { to_address: s("payer"), amount: 122, denom: s("X") },
        }
    );
    assert_eq!(state, before);
}

#[test]
fn play_without_funds() {
    let mut state = arcade(&["A"], 1, 1, "X");
    let err = cw_arcade::contract::play(&mut state, &s("p"), &s(ME), &vec![]).unwrap_err();
    assert_eq!(err, ContractError::Payment { fault: PaymentFault::NoFunds });
    let err =
        cw_arcade::contract::play(&mut state, &s("p"), &s(ME), &vec![coin("X", 0)]).unwrap_err();
    assert_eq!(err, ContractError::Payment { fault: PaymentFault::NoFunds });
    assert_eq!(state.game_counter, 0);
}

#[test]
fn play_with_two_coins() {
    let mut state = arcade(&["A"], 1, 1, "X");
    let funds = vec![coin("X", 5), coin("Y", 5)];
    let err = cw_arcade::contract::play(&mut state, &s("p"), &s(ME), &funds).unwrap_err();
    assert_eq!(err, ContractError::Payment { fault: PaymentFault::MultipleDenoms });
}

#[test]
fn play_with_wrong_denom() {
    let mut state = arcade(&["A"], 1, 1, "X");
    let err =
        cw_arcade::contract::play(&mut state, &s("p"), &s(ME), &vec![coin("Y", 5)]).unwrap_err();
    assert_eq!(err, ContractError::Payment { fault: PaymentFault::MissingDenom(s("X")) });
}

#[test]
fn add_members_appends_in_order() {
    let mut state = arcade(&["A"], 1, 1, "X");
    add_members(&mut state, &s("A"), vec![s("B"), s("A")], Ok(())).unwrap();
    assert_eq!(admins_list(&state), AdminsListResp { admins: vec![s("A"), s("B"), s("A")] });
}

#[test]
fn add_members_rejected_identifier() {
    let mut state = arcade(&["A"], 1, 1, "X");
    let err = add_members(&mut state, &s("A"), vec![s("??")], Err(s("bad"))).unwrap_err();
    assert_eq!(err, ContractError::InvalidAddress { reason: s("bad") });
    assert_eq!(state.admins, vec![s("A")]);
    // an unauthorized caller is told so before the identifiers are looked at
    let err = add_members(&mut state, &s("Z"), vec![s("??")], Err(s("bad"))).unwrap_err();
    assert_eq!(err, ContractError::Unauthorized { sender: s("Z") });
}

#[test]
fn leave_removes_every_occurrence() {
    let mut state = arcade(&["A", "B", "A", "C"], 1, 1, "X");
    leave(&mut state, &s("A"));
    assert_eq!(state.admins, vec![s("B"), s("C")]);
    leave(&mut state, &s("nobody"));
    assert_eq!(state.admins, vec![s("B"), s("C")]);
}

#[test]
fn last_admin_may_leave() {
    let mut state = arcade(&["A"], 1, 1, "X");
    leave(&mut state, &s("A"));
    assert!(state.admins.is_empty());
    assert!(!is_admin(&state.admins, &s("A")));
    let err = update_price(&mut state, &s("A"), 5).unwrap_err();
    assert_eq!(err, ContractError::Unauthorized { sender: s("A") });
}

#[test]
fn update_price_is_admin_gated() {
    let mut state = arcade(&["A"], 1, 10, "X");
    let err = update_price(&mut state, &s("B"), 99).unwrap_err();
    assert_eq!(err, ContractError::Unauthorized { sender: s("B") });
    assert_eq!(get_price(&state), GamePriceResp { price: 10 });
    update_price(&mut state, &s("A"), 99).unwrap();
    assert_eq!(get_price(&state), GamePriceResp { price: 99 });
}

#[test]
fn execute_routes_each_command() {
    let mut state = arcade(&["A"], 1, 10, "X");
    let none: Vec<Coin> = vec![];
    let add = ExecuteMsg::AddAdmin { admins: vec![s("B")] };
    let e = execute(&mut state, &s("A"), &s(ME), &none, add, Ok(())).unwrap();
    assert!(e.transfers.is_empty() && e.winner.is_none() && e.received_tokens.is_none());
    assert_eq!(state.admins, vec![s("A"), s("B")]);

    let price = ExecuteMsg::UpdatePrice { price: 20 };
    execute(&mut state, &s("B"), &s(ME), &none, price, Ok(())).unwrap();
    assert_eq!(state.price_peer_game, 20);

    let first = ExecuteMsg::AddTopUser { user: entry("a", 1, "pa") };
    let e = execute(&mut state, &s("A"), &s(ME), &none, first, Ok(())).unwrap();
    assert_eq!(e.winner, None);
    let second = ExecuteMsg::AddTopUser { user: entry("b", 2, "pb") };
    let e = execute(&mut state, &s("A"), &s(ME), &none, second, Ok(())).unwrap();
    assert_eq!(e.winner, Some(entry("b", 2, "pb")));

    let paid = vec![coin("X", 30)];
    let e = execute(&mut state, &s("p"), &s(ME), &paid, ExecuteMsg::Play {}, Ok(())).unwrap();
    assert_eq!(e.received_tokens, Some(30));
    assert_eq!(e.transfers.len(), 3);
    assert!(e.transfers.iter().all(|t| t.amount == 10));
    assert_eq!(state.game_counter, 1);

    execute(&mut state, &s("A"), &s(ME), &none, ExecuteMsg::Leave {}, Ok(())).unwrap();
    assert_eq!(state.admins, vec![s("B")]);
}

#[test]
fn execute_refusals_leave_state_alone() {
    let mut state = arcade(&["A"], 1, 10, "X");
    let before = state.clone();
    let none: Vec<Coin> = vec![];
    let add = ExecuteMsg::AddAdmin { admins: vec![s("bad")] };
    let err = execute(&mut state, &s("A"), &s(ME), &none, add, Err(s("invalid"))).unwrap_err();
    assert_eq!(err, ContractError::InvalidAddress { reason: s("invalid") });
    let price = ExecuteMsg::UpdatePrice { price: 1 };
    let err = execute(&mut state, &s("Z"), &s(ME), &none, price, Ok(())).unwrap_err();
    assert_eq!(err, ContractError::Unauthorized { sender: s("Z") });
    let low = vec![coin("X", 9)];
    let err = execute(&mut state, &s("p"), &s(ME), &low, ExecuteMsg::Play {}, Ok(())).unwrap_err();
    assert!(matches!(err, ContractError::InsufficientPayment { .. }));
    assert_eq!(state, before);
}
