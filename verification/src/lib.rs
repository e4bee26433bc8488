//! Reputation scoring for a peer-to-peer trading marketplace.
//!
//! The crate keeps, per counterparty, six counters of trade outcomes
//! (completions, refunds, likes, dislikes, closed disputes), lets an
//! administrator configure a table of weights, and derives a scalar
//! reputation value as the weighted sum of the counters divided by the
//! trade volume.

pub mod contract;
pub mod error;
pub mod msg;
pub mod offer;
pub mod score;
pub mod store;
pub mod trade;

pub use contract::{
    checked_derive_reputation, config_rules, config_update_outcome, derive_fits,
    derive_reputation_for, execute_allowed, lemma_derive_reputation_pure, lemma_score_round_trip,
    lemma_zero_events_no_history, query_allowed, replaced_config, scores_consistent,
    spec_derive_reputation, ContractState,
};
pub use error::ContractError;
pub use msg::{ExecuteMsg, ExecuteResponse, InstantiateMsg, QueryMsg, QueryResponse, ScoreResponse};
pub use offer::{OfferState, OfferType};
pub use score::{
    can_record, consistent, count_completed, count_completed_with_dislike,
    count_completed_with_like, count_disputes, count_refunded, count_refunded_with_dislike,
    lemma_replay_consistent, lemma_replay_counts, lemma_step_monotone,
    lemma_step_preserves_consistent, replay, scoring_fits, spec_reputation, step, volume, weighted,
    zero_model, Config, OutcomeKind, Reputation, Score, ScoreModel, ScoreRules,
};
pub use store::{get_of, log_map, Table};
pub use trade::TradeState;
