use reputation::{
    checked_derive_reputation, derive_reputation_for, Config, ContractError, ContractState,
    ExecuteMsg, ExecuteResponse, InstantiateMsg, OutcomeKind, QueryMsg, QueryResponse, Reputation,
    Score, ScoreResponse, ScoreRules, Table,
};

fn example_weights() -> InstantiateMsg {
    InstantiateMsg {
        completed_with_like_weight: 5,
        completed_with_dislike_weight: 1,
        completed_weight: 10,
        refunded_weight: 2,
        refunded_with_dislike_weight: 0,
        closed_dispute_against_weight: 0,
    }
}

fn configured_state() -> ContractState {
    let mut state = ContractState::new();
    state.instantiate(String::from("factory"), example_weights());
    state
}

#[test]
fn instantiate_binds_sender_and_weights() {
    let mut state = ContractState::new();
    let cfg = state.instantiate(String::from("factory"), example_weights());
    assert_eq!(cfg.factory_addr, "factory");
    assert_eq!(cfg.completed_weight, 10);
    assert_eq!(cfg.completed_with_like_weight, 5);
    assert_eq!(cfg.completed_with_dislike_weight, 1);
    assert_eq!(cfg.refunded_weight, 2);
    assert_eq!(cfg.refunded_with_dislike_weight, 0);
    assert_eq!(cfg.closed_dispute_against_weight, 0);
    assert_eq!(state.read_rules(), Ok(&cfg));
}

#[test]
fn read_rules_before_initialization_is_not_found() {
    let state = ContractState::new();
    assert_eq!(state.read_rules(), Err(ContractError::NotFound));
}

#[test]
fn update_rules_by_admin_replaces_all_six() {
    let mut state = configured_state();
    let sender = String::from("factory");
    let r = state.update_config(&sender, 11, 12, 13, 14, 15, 16);
    let cfg = r.expect("administrator may update");
    assert_eq!(cfg.factory_addr, "factory");
    assert_eq!(cfg.completed_with_like_weight, 11);
    assert_eq!(cfg.completed_with_dislike_weight, 12);
    assert_eq!(cfg.completed_weight, 13);
    assert_eq!(cfg.refunded_weight, 14);
    assert_eq!(cfg.refunded_with_dislike_weight, 15);
    assert_eq!(cfg.closed_dispute_against_weight, 16);
    assert_eq!(state.read_rules(), Ok(&cfg));
}

#[test]
fn update_rules_by_non_admin_is_unauthorized_and_leaves_rules() {
    let mut state = configured_state();
    let before = state.read_rules().unwrap().clone();
    let intruder = String::from("mallory");
    let r = state.update_config(&intruder, 11, 12, 13, 14, 15, 16);
    assert_eq!(r, Err(ContractError::Unauthorized));
    assert_eq!(state.read_rules(), Ok(&before));
}

#[test]
fn update_rules_before_initialization_is_a_config_error() {
    let mut state = ContractState::new();
    let sender = String::from("factory");
    let r = state.update_config(&sender, 11, 12, 13, 14, 15, 16);
    assert_eq!(r, Err(ContractError::ConfigError));
}

#[test]
fn save_rating_returns_the_post_update_record() {
    let mut state = configured_state();
    let r = state.save_rating(String::from("maker"), OutcomeKind::Completed, true);
    assert_eq!(r.trade_completed, 1);
    assert_eq!(r.trade_completed_with_like, 1);
    assert_eq!(state.load_score(&String::from("maker")), Some(&r));
}

#[test]
fn score_record_round_trips_through_the_ledger() {
    let mut state = configured_state();
    let maker = String::from("maker");
    let saved = state.save_rating(maker.clone(), OutcomeKind::Refunded, false);
    let reloaded = *state.load_score(&maker).expect("record was persisted");
    assert_eq!(reloaded.trade_completed, saved.trade_completed);
    assert_eq!(
        reloaded.trade_completed_with_like,
        saved.trade_completed_with_like
    );
    assert_eq!(
        reloaded.trade_completed_with_dislike,
        saved.trade_completed_with_dislike
    );
    assert_eq!(reloaded.trade_refunded, saved.trade_refunded);
    assert_eq!(
        reloaded.trade_refunded_with_dislike,
        saved.trade_refunded_with_dislike
    );
    assert_eq!(reloaded.closed_dispute_against, saved.closed_dispute_against);
}

#[test]
fn table_round_trips_records_and_keeps_other_keys() {
    let mut table: Table<Score> = Table::new();
    let a = Score::zero().apply(OutcomeKind::Completed, true);
    let b = Score::zero().apply(OutcomeKind::Refunded, false);
    table.put(String::from("alice"), a);
    table.put(String::from("bob"), b);
    assert_eq!(table.get(&String::from("alice")), Some(&a));
    assert_eq!(table.get(&String::from("bob")), Some(&b));
    assert_eq!(table.get(&String::from("carol")), None);
    let a2 = a.apply(OutcomeKind::Completed, false);
    table.put(String::from("alice"), a2);
    assert_eq!(table.get(&String::from("alice")), Some(&a2));
    assert_eq!(table.get(&String::from("bob")), Some(&b));
}

#[test]
fn derive_reputation_without_record_is_no_history() {
    let state = configured_state();
    let r = state.derive_reputation(&String::from("stranger"));
    assert_eq!(r, Ok(Reputation::NoHistory));
}

#[test]
fn derive_reputation_without_rules_is_a_config_error() {
    let mut state = ContractState::new();
    let maker = String::from("maker");
    state.save_rating(maker.clone(), OutcomeKind::Completed, true);
    assert_eq!(
        state.derive_reputation(&maker),
        Err(ContractError::ConfigError)
    );
}

#[test]
fn dispute_only_maker_has_no_tradeable_volume() {
    let mut state = configured_state();
    let maker = String::from("maker");
    state.save_rating(maker.clone(), OutcomeKind::DisputedAgainst, false);
    // The record exists, but disputes are no trades: still no history.
    assert!(state.load_score(&maker).is_some());
    assert_eq!(state.derive_reputation(&maker), Ok(Reputation::NoHistory));
}

#[test]
fn derive_reputation_is_an_idempotent_read() {
    let mut state = configured_state();
    let maker = String::from("maker");
    state.save_rating(maker.clone(), OutcomeKind::Completed, true);
    state.save_rating(maker.clone(), OutcomeKind::Completed, false);
    let first = state.derive_reputation(&maker);
    let second = state.derive_reputation(&maker);
    assert_eq!(first, second);
}

#[test]
fn derive_reputation_weighted_average_example() {
    let mut state = configured_state();
    let maker = String::from("maker");
    state.save_rating(maker.clone(), OutcomeKind::Completed, true);
    state.save_rating(maker.clone(), OutcomeKind::Completed, true);
    state.save_rating(maker.clone(), OutcomeKind::Completed, false);
    // numerator = 3*10 + 2*5 + 1*1 = 41; volume = 3 + 2 + 1 = 6; 41/6 = 6.
    assert_eq!(state.derive_reputation(&maker), Ok(Reputation::Rated(6)));
}

#[test]
fn execute_routes_ratings_and_config_updates() {
    let mut state = ContractState::new();
    state.instantiate(String::from("factory"), example_weights());
    let trade_contract = String::from("trade0001");
    let r = state.execute(
        &trade_contract,
        ExecuteMsg::SaveCompleteTradeRating { maker: String::from("maker"), liked: true },
    );
    match r {
        Ok(ExecuteResponse::RatingSaved(score)) => {
            assert_eq!(score.trade_completed, 1);
            assert_eq!(score.trade_completed_with_like, 1);
        }
        other => panic!("unexpected response: {:?}", other),
    }
    let r = state.execute(
        &trade_contract,
        ExecuteMsg::SaveRefundTradeRating { maker: String::from("maker"), liked: false },
    );
    match r {
        Ok(ExecuteResponse::RatingSaved(score)) => {
            assert_eq!(score.trade_refunded, 1);
            assert_eq!(score.trade_refunded_with_dislike, 1);
        }
        other => panic!("unexpected response: {:?}", other),
    }
    let r = state.execute(
        &String::from("factory"),
        ExecuteMsg::UpdateConfig {
            completed_with_like_weight: 1,
            completed_with_dislike_weight: 2,
            completed_weight: 3,
            refunded_weight: 4,
            refunded_with_dislike_weight: 5,
            closed_dispute_against_weight: 6,
        },
    );
    match r {
        Ok(ExecuteResponse::ConfigUpdated(cfg)) => assert_eq!(cfg.completed_weight, 3),
        other => panic!("unexpected response: {:?}", other),
    }
}

#[test]
fn query_get_score_answers_the_derived_rating() {
    let mut state = configured_state();
    let maker = String::from("maker");
    state.save_rating(maker.clone(), OutcomeKind::Completed, true);
    state.save_rating(maker.clone(), OutcomeKind::Completed, true);
    state.save_rating(maker.clone(), OutcomeKind::Completed, false);
    let r = state.query(QueryMsg::GetScore { maker });
    assert_eq!(r, Ok(QueryResponse::Rating(Reputation::Rated(6))));
}

#[test]
fn query_all_trades_is_empty_for_an_unlisted_maker() {
    let state = configured_state();
    assert_eq!(state.query_all_trades(&String::from("maker")), Vec::<String>::new());
}

#[test]
fn saved_trades_are_listed_back() {
    let mut state = configured_state();
    let maker = String::from("maker");
    let listing = vec![String::from("trade0001"), String::from("trade0002")];
    state.save_trades(maker.clone(), listing.clone());
    assert_eq!(state.query_all_trades(&maker), listing);
    let r = state.query(QueryMsg::GetAllTrades { maker });
    assert_eq!(r, Ok(QueryResponse::Trades(listing)));
}

#[test]
fn try_replace_decides_by_administrator_identity() {
    let cfg = Config {
        factory_addr: String::from("factory"),
        completed_with_like_weight: 5,
        completed_with_dislike_weight: 1,
        completed_weight: 10,
        refunded_weight: 2,
        refunded_with_dislike_weight: 0,
        closed_dispute_against_weight: 0,
    };
    let replaced = cfg
        .try_replace(&String::from("factory"), 1, 2, 3, 4, 5, 6)
        .expect("administrator may replace");
    assert_eq!(replaced.factory_addr, "factory");
    assert_eq!(replaced.refunded_weight, 4);
    assert_eq!(
        cfg.try_replace(&String::from("mallory"), 1, 2, 3, 4, 5, 6),
        Err(ContractError::Unauthorized)
    );
}

#[test]
fn derivation_from_plain_values_matches_the_query_path() {
    let rules = ScoreRules {
        trade_completed_with_like_weight: 5,
        trade_completed_with_dislike_weight: 1,
        trade_completed_weight: 10,
        trade_refunded_weight: 2,
        trade_refunded_with_dislike_weight: 0,
        closed_dispute_against_weight: 0,
    };
    let mut s = Score::zero();
    s = s.apply(OutcomeKind::Completed, true);
    s = s.apply(OutcomeKind::Completed, true);
    s = s.apply(OutcomeKind::Completed, false);
    assert_eq!(
        derive_reputation_for(Some(s), Some(rules)),
        Ok(Reputation::Rated(6))
    );
    assert_eq!(
        derive_reputation_for(None, Some(rules)),
        Ok(Reputation::NoHistory)
    );
    assert_eq!(
        derive_reputation_for(Some(s), None),
        Err(ContractError::ConfigError)
    );
    assert_eq!(
        derive_reputation_for(Some(Score::zero()), Some(rules)),
        Ok(Reputation::NoHistory)
    );
}

#[test]
fn checked_derivation_guards_the_machine_word() {
    let rules = ScoreRules {
        trade_completed_with_like_weight: u128::MAX,
        trade_completed_with_dislike_weight: u128::MAX,
        trade_completed_weight: u128::MAX,
        trade_refunded_weight: u128::MAX,
        trade_refunded_with_dislike_weight: u128::MAX,
        closed_dispute_against_weight: 0,
    };
    let mut s = Score::zero();
    s = s.apply(OutcomeKind::Completed, true);
    s = s.apply(OutcomeKind::Completed, false);
    // 2 * MAX + 1 * MAX + 1 * MAX does not fit a u128.
    assert_eq!(checked_derive_reputation(Some(s), Some(rules)), None);
    let modest = ScoreRules {
        trade_completed_with_like_weight: 5,
        trade_completed_with_dislike_weight: 1,
        trade_completed_weight: 10,
        trade_refunded_weight: 2,
        trade_refunded_with_dislike_weight: 0,
        closed_dispute_against_weight: 0,
    };
    assert_eq!(
        checked_derive_reputation(Some(s), Some(modest)),
        Some(derive_reputation_for(Some(s), Some(modest)))
    );
    assert_eq!(
        checked_derive_reputation(None, None),
        Some(Ok(Reputation::NoHistory))
    );
    assert_eq!(
        checked_derive_reputation(Some(s), None),
        Some(Err(ContractError::ConfigError))
    );
}

#[test]
fn score_response_carries_small_ratings_only() {
    assert_eq!(
        Reputation::Rated(6).score_response(),
        Some(ScoreResponse { score: 6 })
    );
    assert_eq!(Reputation::NoHistory.score_response(), None);
    assert_eq!(Reputation::Rated(u128::MAX).score_response(), None);
}
