use vstd::prelude::*;

verus! {

use crate::score::{Config, Reputation, Score};

/// The six weights handed to `instantiate`, one per outcome category.
#[derive(Clone, Copy, Debug, PartialEq, Eq, Structural)]
pub struct InstantiateMsg {
    pub completed_with_like_weight: u128,
    pub completed_with_dislike_weight: u128,
    pub completed_weight: u128,
    pub refunded_weight: u128,
    pub refunded_with_dislike_weight: u128,
    pub closed_dispute_against_weight: u128,
}

/// The mutating calls of the contract.
#[derive(Clone, Debug, PartialEq)]
pub enum ExecuteMsg {
    /// Replace all six weights; only the administrator may.
    UpdateConfig {
        completed_with_like_weight: u128,
        completed_with_dislike_weight: u128,
        completed_weight: u128,
        refunded_weight: u128,
        refunded_with_dislike_weight: u128,
        closed_dispute_against_weight: u128,
    },
    /// A trade with this maker completed; `liked` is the counterparty's verdict.
    SaveCompleteTradeRating { maker: String, liked: bool },
    /// A trade with this maker was refunded.
    SaveRefundTradeRating { maker: String, liked: bool },
}

/// The read-only calls of the contract.
#[derive(Clone, Debug, PartialEq)]
pub enum QueryMsg {
    GetScore { maker: String },
    GetAllTrades { maker: String },
}

/// Wire shape of a derived score, for callers that expect a small integer.
#[derive(Clone, Copy, Debug, PartialEq, Eq, Structural)]
pub struct ScoreResponse {
    pub score: i32,
}

impl Reputation {
    /// The wire shape of this outcome: a numeric value that fits the
    /// response's small integer, and nothing for no history or a value
    /// too large for it.
    pub fn score_response(&self) -> (r: Option<ScoreResponse>)
        ensures
            match *self {
                Reputation::NoHistory => r is None,
                Reputation::Rated(v) => if v <= i32::MAX as u128 {
                    r == Some(ScoreResponse { score: v as i32 })
                } else {
                    r is None
                },
            },
    {
        match self {
            Reputation::NoHistory => None,
            Reputation::Rated(v) => if *v <= i32::MAX as u128 {
                Some(ScoreResponse { score: *v as i32 })
            } else {
                None
            },
        }
    }
}

/// The typed event a mutating call emits for auditing consumers.
#[derive(Clone, Debug, PartialEq)]
pub enum ExecuteResponse {
    /// The configuration now in force.
    ConfigUpdated(Config),
    /// The post-update score record of the rated maker.
    RatingSaved(Score),
}

/// The typed answer of a read-only call.
#[derive(Clone, Debug, PartialEq)]
pub enum QueryResponse {
    Rating(Reputation),
    Trades(Vec<String>),
}

} // verus!
