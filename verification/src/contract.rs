use vstd::prelude::*;

verus! {

use crate::error::ContractError;
use crate::msg::{ExecuteMsg, ExecuteResponse, InstantiateMsg, QueryMsg, QueryResponse};
use crate::score::{
    can_record, consistent, scoring_fits, spec_reputation, step, volume, zero_model, Config,
    OutcomeKind, Reputation, Score, ScoreModel, ScoreRules,
};
use crate::store::{get_of, Table};

/// The configuration that replacing the weights leaves in force: the
/// administrator is kept, the six weights are the new ones.
pub open spec fn replaced_config(
    cfg: Config,
    completed_with_like_weight: u128,
    completed_with_dislike_weight: u128,
    completed_weight: u128,
    refunded_weight: u128,
    refunded_with_dislike_weight: u128,
    closed_dispute_against_weight: u128,
) -> Config {
    Config {
        factory_addr: cfg.factory_addr,
        completed_with_like_weight,
        completed_with_dislike_weight,
        completed_weight,
        refunded_weight,
        refunded_with_dislike_weight,
        closed_dispute_against_weight,
    }
}

/// What replacing the weights returns: the rule table must exist, the
/// caller must be the administrator, and then the new configuration is
/// in force — all six weights at once, or none.
pub open spec fn config_update_outcome(
    pre: Option<Config>,
    sender: Seq<char>,
    completed_with_like_weight: u128,
    completed_with_dislike_weight: u128,
    completed_weight: u128,
    refunded_weight: u128,
    refunded_with_dislike_weight: u128,
    closed_dispute_against_weight: u128,
) -> Result<Config, ContractError> {
    match pre {
        Option::None => Err(ContractError::ConfigError),
        Option::Some(cfg) => if sender != cfg.factory_addr@ {
            Err(ContractError::Unauthorized)
        } else {
            Ok(
                replaced_config(
                    cfg,
                    completed_with_like_weight,
                    completed_with_dislike_weight,
                    completed_weight,
                    refunded_weight,
                    refunded_with_dislike_weight,
                    closed_dispute_against_weight,
                ),
            )
        },
    }
}

/// The rule table a configuration carries, if the system is configured.
pub open spec fn config_rules(config: Option<Config>) -> Option<ScoreRules> {
    match config {
        Option::Some(c) => Some(c.spec_score_rules()),
        Option::None => None,
    }
}

/// What a reputation query answers, as a function of the counterparty's
/// record and the rule table alone: no record means no history; a record
/// without tradeable volume also means no history, never a numeric
/// value; a missing rule table is a misconfigured system.
pub open spec fn spec_derive_reputation(
    score: Option<Score>,
    rules: Option<ScoreRules>,
) -> Result<Reputation, ContractError> {
    match score {
        Option::None => Ok(Reputation::NoHistory),
        Option::Some(s) => match rules {
            Option::None => Err(ContractError::ConfigError),
            Option::Some(r) => if volume(s@) == 0 {
                Ok(Reputation::NoHistory)
            } else {
                Ok(Reputation::Rated(spec_reputation(s@, r) as u128))
            },
        },
    }
}

/// The machine-width bound a reputation derivation needs: whenever a
/// numeric value would be computed, its intermediate sums fit a `u128`.
pub open spec fn derive_fits(score: Option<Score>, rules: Option<ScoreRules>) -> bool {
    match (score, rules) {
        (Option::Some(s), Option::Some(r)) => volume(s@) > 0 ==> scoring_fits(s@, r),
        _ => true,
    }
}

/// Derive a reputation value from a loaded record and rule table held
/// as plain values.
pub fn derive_reputation_for(score: Option<Score>, rules: Option<ScoreRules>) -> (r: Result<
    Reputation,
    ContractError,
>)
    requires
        derive_fits(score, rules),
    ensures
        r == spec_derive_reputation(score, rules),
{
    let s = match score {
        None => {
            return Ok(Reputation::NoHistory);
        },
        Some(s) => s,
    };
    let ru = match rules {
        None => {
            return Err(ContractError::ConfigError);
        },
        Some(ru) => ru,
    };
    if s.trade_completed == 0 && s.trade_completed_with_like == 0
        && s.trade_completed_with_dislike == 0 && s.trade_refunded == 0
        && s.trade_refunded_with_dislike == 0 {
        return Ok(Reputation::NoHistory);
    }
    Ok(Reputation::Rated(s.calculate_reputation(ru)))
}

/// Derive a reputation value, testing the machine-width bound instead
/// of demanding it: callers that cannot know the bound in advance get
/// nothing back where the derivation would not fit.
pub fn checked_derive_reputation(score: Option<Score>, rules: Option<ScoreRules>) -> (r: Option<
    Result<Reputation, ContractError>,
>)
    ensures
        derive_fits(score, rules) ==> r == Some(spec_derive_reputation(score, rules)),
        !derive_fits(score, rules) ==> r is None,
{
    let s = match score {
        None => {
            return Some(Ok(Reputation::NoHistory));
        },
        Some(s) => s,
    };
    let ru = match rules {
        None => {
            return Some(Err(ContractError::ConfigError));
        },
        Some(ru) => ru,
    };
    if s.trade_completed == 0 && s.trade_completed_with_like == 0
        && s.trade_completed_with_dislike == 0 && s.trade_refunded == 0
        && s.trade_refunded_with_dislike == 0 {
        return Some(Ok(Reputation::NoHistory));
    }
    if s.checked_volume().is_none() || s.checked_weighted(&ru).is_none() {
        return None;
    }
    Some(Ok(Reputation::Rated(s.calculate_reputation(ru))))
}

/// Every score record the ledger holds is consistent.
pub open spec fn scores_consistent(scores: Map<Seq<char>, Score>) -> bool {
    forall|k: Seq<char>| #[trigger] scores.contains_key(k) ==> consistent(scores[k]@)
}

impl Config {
    /// The configuration that replacing the weights through this
    /// configuration yields: only the bound administrator may, and the
    /// administrator stays bound.
    pub fn try_replace(
        &self,
        sender: &String,
        completed_with_like_weight: u128,
        completed_with_dislike_weight: u128,
        completed_weight: u128,
        refunded_weight: u128,
        refunded_with_dislike_weight: u128,
        closed_dispute_against_weight: u128,
    ) -> (r: Result<Config, ContractError>)
        ensures
            r == config_update_outcome(
                Some(*self),
                sender@,
                completed_with_like_weight,
                completed_with_dislike_weight,
                completed_weight,
                refunded_weight,
                refunded_with_dislike_weight,
                closed_dispute_against_weight,
            ),
    {
        if !sender.eq(&self.factory_addr) {
            return Err(ContractError::Unauthorized);
        }
        Ok(
            Config {
                factory_addr: self.factory_addr.clone(),
                completed_with_like_weight,
                completed_with_dislike_weight,
                completed_weight,
                refunded_weight,
                refunded_with_dislike_weight,
                closed_dispute_against_weight,
            },
        )
    }
}

/// A mutating call may be made whenever the counters it bumps stay
/// below the machine limit; replacing the weights always may.
pub open spec fn execute_allowed(s: ContractState, msg: ExecuteMsg) -> bool {
    match msg {
        ExecuteMsg::UpdateConfig { .. } => true,
        ExecuteMsg::SaveCompleteTradeRating { maker, liked } => can_record(
            s.score_model_of(maker@),
            OutcomeKind::Completed,
            liked,
        ),
        ExecuteMsg::SaveRefundTradeRating { maker, liked } => can_record(
            s.score_model_of(maker@),
            OutcomeKind::Refunded,
            liked,
        ),
    }
}

/// A read-only call may be made whenever the derivation it performs
/// fits the machine word; listing trades always may.
pub open spec fn query_allowed(s: ContractState, msg: QueryMsg) -> bool {
    match msg {
        QueryMsg::GetScore { maker } => derive_fits(
            get_of(s.spec_scores(), maker@),
            config_rules(s.spec_config()),
        ),
        QueryMsg::GetAllTrades { .. } => true,
    }
}

/// The persistent state of the reputation contract: the singleton
/// configuration table, the counterparty-keyed score ledger, and the
/// per-maker listing of trade contracts.
pub struct ContractState {
    config: Option<Config>,
    scores: Table<Score>,
    trades: Table<Vec<String>>,
}

impl ContractState {
    /// The configuration table, a single record if initialized.
    pub closed spec fn spec_config(&self) -> Option<Config> {
        self.config
    }

    /// The score ledger as the mapping it denotes.
    pub closed spec fn spec_scores(&self) -> Map<Seq<char>, Score> {
        self.scores@
    }

    /// The trade listings as the mapping they denote.
    pub closed spec fn spec_trades(&self) -> Map<Seq<char>, Vec<String>> {
        self.trades@
    }

    /// The model of a counterparty's record: what the ledger holds, or
    /// the zero record before the first event.
    pub open spec fn score_model_of(&self, maker: Seq<char>) -> ScoreModel {
        match get_of(self.spec_scores(), maker) {
            Option::Some(s) => s@,
            Option::None => zero_model(),
        }
    }

    /// Fresh state: nothing configured, no record, no trade listed.
    pub fn new() -> (r: ContractState)
        ensures
            r.spec_config() is None,
            r.spec_scores() == Map::<Seq<char>, Score>::empty(),
            r.spec_trades() == Map::<Seq<char>, Vec<String>>::empty(),
    {
        ContractState { config: None, scores: Table::new(), trades: Table::new() }
    }

    /// Construct the rule table from the caller-supplied weights and
    /// bind the initializing caller as administrator. Returns the
    /// configuration now in force, as the emitted event.
    pub fn instantiate(&mut self, sender: String, msg: InstantiateMsg) -> (r: Config)
        ensures
            r.factory_addr == sender,
            r.completed_with_like_weight == msg.completed_with_like_weight,
            r.completed_with_dislike_weight == msg.completed_with_dislike_weight,
            r.completed_weight == msg.completed_weight,
            r.refunded_weight == msg.refunded_weight,
            r.refunded_with_dislike_weight == msg.refunded_with_dislike_weight,
            r.closed_dispute_against_weight == msg.closed_dispute_against_weight,
            final(self).spec_config() == Some(r),
            final(self).spec_scores() == old(self).spec_scores(),
            final(self).spec_trades() == old(self).spec_trades(),
    {
        let config = Config {
            factory_addr: sender.clone(),
            completed_with_like_weight: msg.completed_with_like_weight,
            completed_with_dislike_weight: msg.completed_with_dislike_weight,
            completed_weight: msg.completed_weight,
            refunded_weight: msg.refunded_weight,
            refunded_with_dislike_weight: msg.refunded_with_dislike_weight,
            closed_dispute_against_weight: msg.closed_dispute_against_weight,
        };
        self.config = Some(config);
        Config {
            factory_addr: sender,
            completed_with_like_weight: msg.completed_with_like_weight,
            completed_with_dislike_weight: msg.completed_with_dislike_weight,
            completed_weight: msg.completed_weight,
            refunded_weight: msg.refunded_weight,
            refunded_with_dislike_weight: msg.refunded_with_dislike_weight,
            closed_dispute_against_weight: msg.closed_dispute_against_weight,
        }
    }

    /// Replace all six weights. Only the administrator bound at
    /// initialization may; any other caller is turned away unchanged.
    pub fn update_config(
        &mut self,
        sender: &String,
        completed_with_like_weight: u128,
        completed_with_dislike_weight: u128,
        completed_weight: u128,
        refunded_weight: u128,
        refunded_with_dislike_weight: u128,
        closed_dispute_against_weight: u128,
    ) -> (r: Result<Config, ContractError>)
        ensures
            r == config_update_outcome(
                old(self).spec_config(),
                sender@,
                completed_with_like_weight,
                completed_with_dislike_weight,
                completed_weight,
                refunded_weight,
                refunded_with_dislike_weight,
                closed_dispute_against_weight,
            ),
            r matches Ok(c) ==> final(self).spec_config() == Some(c),
            r is Err ==> *final(self) == *old(self),
            final(self).spec_scores() == old(self).spec_scores(),
            final(self).spec_trades() == old(self).spec_trades(),
    {
        let outcome = match &self.config {
            None => {
                return Err(ContractError::ConfigError);
            },
            Some(cfg) => cfg.try_replace(
                sender,
                completed_with_like_weight,
                completed_with_dislike_weight,
                completed_weight,
                refunded_weight,
                refunded_with_dislike_weight,
                closed_dispute_against_weight,
            ),
        };
        match outcome {
            Err(e) => Err(e),
            Ok(config) => {
                let emitted = Config {
                    factory_addr: config.factory_addr.clone(),
                    completed_with_like_weight,
                    completed_with_dislike_weight,
                    completed_weight,
                    refunded_weight,
                    refunded_with_dislike_weight,
                    closed_dispute_against_weight,
                };
                self.config = Some(config);
                Ok(emitted)
            },
        }
    }

    /// The current rule table, or `NotFound` if never initialized.
    pub fn read_rules(&self) -> (r: Result<&Config, ContractError>)
        ensures
            match self.spec_config() {
                Option::Some(c) => r matches Ok(rc) && *rc == c,
                Option::None => r == Err::<&Config, ContractError>(ContractError::NotFound),
            },
    {
        match &self.config {
            Some(cfg) => Ok(cfg),
            None => Err(ContractError::NotFound),
        }
    }

    /// Record one trade outcome for a maker: the record is created at
    /// zero on the first event, the matching counters grow by one, and
    /// the updated record is persisted and returned as the emitted
    /// event payload.
    pub fn save_rating(&mut self, maker: String, kind: OutcomeKind, liked: bool) -> (r: Score)
        requires
            can_record(old(self).score_model_of(maker@), kind, liked),
        ensures
            r@ == step(old(self).score_model_of(maker@), kind, liked),
            final(self).score_model_of(maker@) == step(
                old(self).score_model_of(maker@),
                kind,
                liked,
            ),
            final(self).spec_scores() == old(self).spec_scores().insert(maker@, r),
            final(self).spec_config() == old(self).spec_config(),
            final(self).spec_trades() == old(self).spec_trades(),
            scores_consistent(old(self).spec_scores()) ==> scores_consistent(
                final(self).spec_scores(),
            ),
    {
        let current: Score = match self.scores.get(&maker) {
            Some(s) => *s,
            None => Score::zero(),
        };
        let updated = current.apply(kind, liked);
        self.scores.put(maker, updated);
        proof {
            if scores_consistent(old(self).spec_scores()) {
                crate::score::lemma_step_preserves_consistent(
                    old(self).score_model_of(maker@),
                    kind,
                    liked,
                );
                assert forall|k: Seq<char>| #[trigger] self.spec_scores().contains_key(k) implies
                    consistent(self.spec_scores()[k]@) by {
                    if k != maker@ {
                        assert(old(self).spec_scores().contains_key(k));
                    }
                }
            }
        }
        updated
    }

    /// Read back the raw score record persisted for a maker, if any.
    pub fn load_score(&self, maker: &String) -> (r: Option<&Score>)
        ensures
            match r {
                Option::Some(s) => get_of(self.spec_scores(), maker@) == Some(*s),
                Option::None => get_of(self.spec_scores(), maker@) is None,
            },
    {
        self.scores.get(maker)
    }

    /// Derive the maker's reputation value from their record and the
    /// rule table, as `spec_derive_reputation` says.
    pub fn derive_reputation(&self, maker: &String) -> (r: Result<Reputation, ContractError>)
        requires
            derive_fits(
                get_of(self.spec_scores(), maker@),
                config_rules(self.spec_config()),
            ),
        ensures
            r == spec_derive_reputation(
                get_of(self.spec_scores(), maker@),
                config_rules(self.spec_config()),
            ),
    {
        let score: Option<Score> = match self.scores.get(maker) {
            None => None,
            Some(s) => Some(*s),
        };
        let rules: Option<ScoreRules> = match &self.config {
            None => None,
            Some(cfg) => Some(cfg.score_rules()),
        };
        derive_reputation_for(score, rules)
    }

    /// Dispatch one mutating call: weights may be replaced by the
    /// administrator, and trade outcomes are recorded for their maker —
    /// a completed-trade rating as a `Completed` outcome, a
    /// refunded-trade rating as a `Refunded` one.
    pub fn execute(&mut self, sender: &String, msg: ExecuteMsg) -> (r: Result<
        ExecuteResponse,
        ContractError,
    >)
        requires
            execute_allowed(*old(self), msg),
        ensures
            match msg {
                ExecuteMsg::UpdateConfig {
                    completed_with_like_weight,
                    completed_with_dislike_weight,
                    completed_weight,
                    refunded_weight,
                    refunded_with_dislike_weight,
                    closed_dispute_against_weight,
                } => match config_update_outcome(
                    old(self).spec_config(),
                    sender@,
                    completed_with_like_weight,
                    completed_with_dislike_weight,
                    completed_weight,
                    refunded_weight,
                    refunded_with_dislike_weight,
                    closed_dispute_against_weight,
                ) {
                    Result::Ok(c) => {
                        &&& r == Ok::<ExecuteResponse, ContractError>(
                            ExecuteResponse::ConfigUpdated(c),
                        )
                        &&& final(self).spec_config() == Some(c)
                        &&& final(self).spec_scores() == old(self).spec_scores()
                        &&& final(self).spec_trades() == old(self).spec_trades()
                    },
                    Result::Err(e) => {
                        &&& r == Err::<ExecuteResponse, ContractError>(e)
                        &&& *final(self) == *old(self)
                    },
                },
                ExecuteMsg::SaveCompleteTradeRating { maker, liked } => {
                    &&& r matches Ok(ExecuteResponse::RatingSaved(sc)) && sc@ == step(
                        old(self).score_model_of(maker@),
                        OutcomeKind::Completed,
                        liked,
                    ) && final(self).spec_scores() == old(self).spec_scores().insert(maker@, sc)
                    &&& final(self).spec_config() == old(self).spec_config()
                    &&& final(self).spec_trades() == old(self).spec_trades()
                },
                ExecuteMsg::SaveRefundTradeRating { maker, liked } => {
                    &&& r matches Ok(ExecuteResponse::RatingSaved(sc)) && sc@ == step(
                        old(self).score_model_of(maker@),
                        OutcomeKind::Refunded,
                        liked,
                    ) && final(self).spec_scores() == old(self).spec_scores().insert(maker@, sc)
                    &&& final(self).spec_config() == old(self).spec_config()
                    &&& final(self).spec_trades() == old(self).spec_trades()
                },
            },
            scores_consistent(old(self).spec_scores()) ==> scores_consistent(
                final(self).spec_scores(),
            ),
    {
        match msg {
            ExecuteMsg::UpdateConfig {
                completed_with_like_weight,
                completed_with_dislike_weight,
                completed_weight,
                refunded_weight,
                refunded_with_dislike_weight,
                closed_dispute_against_weight,
            } => match self.update_config(
                sender,
                completed_with_like_weight,
                completed_with_dislike_weight,
                completed_weight,
                refunded_weight,
                refunded_with_dislike_weight,
                closed_dispute_against_weight,
            ) {
                Ok(c) => Ok(ExecuteResponse::ConfigUpdated(c)),
                Err(e) => Err(e),
            },
            ExecuteMsg::SaveCompleteTradeRating { maker, liked } => Ok(
                ExecuteResponse::RatingSaved(
                    self.save_rating(maker, OutcomeKind::Completed, liked),
                ),
            ),
            ExecuteMsg::SaveRefundTradeRating { maker, liked } => Ok(
                ExecuteResponse::RatingSaved(self.save_rating(maker, OutcomeKind::Refunded, liked)),
            ),
        }
    }

    /// Dispatch one read-only call.
    pub fn query(&self, msg: QueryMsg) -> (r: Result<QueryResponse, ContractError>)
        requires
            query_allowed(*self, msg),
        ensures
            match msg {
                QueryMsg::GetScore { maker } => match spec_derive_reputation(
                    get_of(self.spec_scores(), maker@),
                    config_rules(self.spec_config()),
                ) {
                    Result::Ok(rep) => r == Ok::<QueryResponse, ContractError>(
                        QueryResponse::Rating(rep),
                    ),
                    Result::Err(e) => r == Err::<QueryResponse, ContractError>(e),
                },
                QueryMsg::GetAllTrades { maker } => r matches Ok(QueryResponse::Trades(v)) && (
                match get_of(self.spec_trades(), maker@) {
                    Option::Some(t) => v@ == t@,
                    Option::None => v@ == Seq::<String>::empty(),
                }),
            },
    {
        match msg {
            QueryMsg::GetScore { maker } => match self.derive_reputation(&maker) {
                Ok(rep) => Ok(QueryResponse::Rating(rep)),
                Err(e) => Err(e),
            },
            QueryMsg::GetAllTrades { maker } => Ok(
                QueryResponse::Trades(self.query_all_trades(&maker)),
            ),
        }
    }

    /// Persist the listing of trade contracts of one maker, replacing
    /// the previous listing.
    pub fn save_trades(&mut self, maker: String, trades: Vec<String>)
        ensures
            final(self).spec_trades() == old(self).spec_trades().insert(maker@, trades),
            final(self).spec_config() == old(self).spec_config(),
            final(self).spec_scores() == old(self).spec_scores(),
    {
        self.trades.put(maker, trades);
    }

    /// The trade contracts listed for a maker; a maker never listed has
    /// an empty history.
    pub fn query_all_trades(&self, maker: &String) -> (r: Vec<String>)
        ensures
            match get_of(self.spec_trades(), maker@) {
                Option::Some(v) => r@ == v@,
                Option::None => r@ == Seq::<String>::empty(),
            },
    {
        match self.trades.get(maker) {
            Some(v) => {
                let c = v.clone();
                proof {
                    assert forall|i: int| 0 <= i < v@.len() implies c@[i] == v@[i] by {
                        assert(vstd::pervasive::cloned::<String>(v@[i], c@[i]));
                    }
                    assert(c@ =~= v@);
                }
                c
            },
            None => Vec::new(),
        }
    }
}

/// Deriving a reputation is a pure function of the counterparty's
/// record and the rule table: two states that agree on those two answer
/// a score query identically, so reading twice without intervening
/// mutation yields identical results.
pub proof fn lemma_derive_reputation_pure(a: ContractState, b: ContractState, maker: Seq<char>)
    requires
        get_of(a.spec_scores(), maker) == get_of(b.spec_scores(), maker),
        config_rules(a.spec_config()) == config_rules(b.spec_config()),
    ensures
        spec_derive_reputation(get_of(a.spec_scores(), maker), config_rules(a.spec_config()))
            == spec_derive_reputation(
            get_of(b.spec_scores(), maker),
            config_rules(b.spec_config()),
        ),
{
}

/// A counterparty with zero events — no record at all, or, in a
/// configured system, a record without tradeable volume — has no
/// history: the derivation never answers a numeric value for them.
pub proof fn lemma_zero_events_no_history(score: Option<Score>, rules: Option<ScoreRules>)
    requires
        match score {
            Option::Some(s) => volume(s@) == 0 && rules is Some,
            Option::None => true,
        },
    ensures
        spec_derive_reputation(score, rules) == Ok::<Reputation, ContractError>(
            Reputation::NoHistory,
        ),
{
}

/// Round trip through the storage contract: persisting a score record
/// and reloading it under the same key yields the identical record, all
/// six counters equal; every other key still holds what it held.
pub proof fn lemma_score_round_trip(scores: Map<Seq<char>, Score>, maker: Seq<char>, s: Score)
    ensures
        get_of(scores.insert(maker, s), maker) == Some(s),
        forall|k: Seq<char>| k != maker ==> get_of(#[trigger] scores.insert(maker, s), k) == get_of(
            scores,
            k,
        ),
{
}

} // verus!
