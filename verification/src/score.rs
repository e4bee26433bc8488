use vstd::prelude::*;

verus! {

use vstd::arithmetic::mul::lemma_mul_nonnegative;

/// Outcome category of a resolved trade, reported once per trade by the
/// escrow collaborator.
#[derive(Clone, Copy, Debug, PartialEq, Eq, Structural)]
pub enum OutcomeKind {
    Completed,
    Refunded,
    DisputedAgainst,
}

/// Administrator-configured weights, one per outcome category.
#[derive(Clone, Copy, Debug, PartialEq, Eq, Structural)]
pub struct ScoreRules {
    pub trade_completed_with_like_weight: u128,
    pub trade_completed_with_dislike_weight: u128,
    pub trade_completed_weight: u128,
    pub trade_refunded_weight: u128,
    pub trade_refunded_with_dislike_weight: u128,
    pub closed_dispute_against_weight: u128,
}

/// The outcome of deriving a reputation value. A counterparty without
/// tradeable volume has no history — a distinct outcome, never a
/// numeric value.
#[derive(Clone, Copy, Debug, PartialEq, Eq, Structural)]
pub enum Reputation {
    NoHistory,
    Rated(u128),
}

/// The contract's configuration: the administrator bound at
/// initialization, and one weight per outcome category.
#[derive(Clone, Debug, PartialEq)]
pub struct Config {
    pub factory_addr: String,
    pub completed_with_like_weight: u128,
    pub completed_with_dislike_weight: u128,
    pub completed_weight: u128,
    pub refunded_weight: u128,
    pub refunded_with_dislike_weight: u128,
    pub closed_dispute_against_weight: u128,
}

impl Config {
    /// The weight table this configuration carries.
    pub open spec fn spec_score_rules(&self) -> ScoreRules {
        ScoreRules {
            trade_completed_with_like_weight: self.completed_with_like_weight,
            trade_completed_with_dislike_weight: self.completed_with_dislike_weight,
            trade_completed_weight: self.completed_weight,
            trade_refunded_weight: self.refunded_weight,
            trade_refunded_with_dislike_weight: self.refunded_with_dislike_weight,
            closed_dispute_against_weight: self.closed_dispute_against_weight,
        }
    }

    /// The weight table this configuration carries.
    pub fn score_rules(&self) -> (r: ScoreRules)
        ensures
            r == self.spec_score_rules(),
    {
        ScoreRules {
            trade_completed_with_like_weight: self.completed_with_like_weight,
            trade_completed_with_dislike_weight: self.completed_with_dislike_weight,
            trade_completed_weight: self.completed_weight,
            trade_refunded_weight: self.refunded_weight,
            trade_refunded_with_dislike_weight: self.refunded_with_dislike_weight,
            closed_dispute_against_weight: self.closed_dispute_against_weight,
        }
    }
}

/// Per-counterparty outcome counters. Each counter only ever grows, by
/// exactly one per qualifying event.
#[derive(Clone, Copy, Debug, PartialEq, Eq, Structural)]
pub struct Score {
    pub trade_completed: u128,
    pub trade_completed_with_like: u128,
    pub trade_completed_with_dislike: u128,
    pub trade_refunded: u128,
    pub trade_refunded_with_dislike: u128,
    pub closed_dispute_against: u128,
}

/// Mathematical model of a `Score`: the six counters as unbounded integers.
pub ghost struct ScoreModel {
    pub trade_completed: int,
    pub trade_completed_with_like: int,
    pub trade_completed_with_dislike: int,
    pub trade_refunded: int,
    pub trade_refunded_with_dislike: int,
    pub closed_dispute_against: int,
}

impl View for Score {
    type V = ScoreModel;

    open spec fn view(&self) -> ScoreModel {
        ScoreModel {
            trade_completed: self.trade_completed as int,
            trade_completed_with_like: self.trade_completed_with_like as int,
            trade_completed_with_dislike: self.trade_completed_with_dislike as int,
            trade_refunded: self.trade_refunded as int,
            trade_refunded_with_dislike: self.trade_refunded_with_dislike as int,
            closed_dispute_against: self.closed_dispute_against as int,
        }
    }
}

/// The record a counterparty starts from: every counter at zero.
pub open spec fn zero_model() -> ScoreModel {
    ScoreModel {
        trade_completed: 0,
        trade_completed_with_like: 0,
        trade_completed_with_dislike: 0,
        trade_refunded: 0,
        trade_refunded_with_dislike: 0,
        closed_dispute_against: 0,
    }
}

/// The transition applied to a record for one reported outcome.
///
/// A completed trade always bumps the volume counter `trade_completed`
/// and exactly one of its liked/disliked sub-counters; a refunded trade
/// bumps `trade_refunded` and, only on a dislike, its sub-counter; a
/// dispute closed against the counterparty bumps only its own counter.
pub open spec fn step(m: ScoreModel, kind: OutcomeKind, liked: bool) -> ScoreModel {
    match kind {
        OutcomeKind::Completed => if liked {
            ScoreModel {
                trade_completed: m.trade_completed + 1,
                trade_completed_with_like: m.trade_completed_with_like + 1,
                ..m
            }
        } else {
            ScoreModel {
                trade_completed: m.trade_completed + 1,
                trade_completed_with_dislike: m.trade_completed_with_dislike + 1,
                ..m
            }
        },
        OutcomeKind::Refunded => if liked {
            ScoreModel { trade_refunded: m.trade_refunded + 1, ..m }
        } else {
            ScoreModel {
                trade_refunded: m.trade_refunded + 1,
                trade_refunded_with_dislike: m.trade_refunded_with_dislike + 1,
                ..m
            }
        },
        OutcomeKind::DisputedAgainst => ScoreModel {
            closed_dispute_against: m.closed_dispute_against + 1,
            ..m
        },
    }
}

/// The counters that `step` bumps for this event stay below the machine
/// limit, so the increment cannot overflow.
pub open spec fn can_record(m: ScoreModel, kind: OutcomeKind, liked: bool) -> bool {
    match kind {
        OutcomeKind::Completed => m.trade_completed < u128::MAX && if liked {
            m.trade_completed_with_like < u128::MAX
        } else {
            m.trade_completed_with_dislike < u128::MAX
        },
        OutcomeKind::Refunded => m.trade_refunded < u128::MAX
            && (liked || m.trade_refunded_with_dislike < u128::MAX),
        OutcomeKind::DisputedAgainst => m.closed_dispute_against < u128::MAX,
    }
}

/// Trade volume: the five trade counters. Closed disputes are not trades
/// and never count towards the volume.
pub open spec fn volume(m: ScoreModel) -> int {
    m.trade_completed + m.trade_completed_with_like + m.trade_completed_with_dislike
        + m.trade_refunded + m.trade_refunded_with_dislike
}

/// Weighted sum of the five trade counters. The dispute counter carries
/// no weight here: the rule table holds a weight for it, but the derived
/// value is dispute-blind.
pub open spec fn weighted(m: ScoreModel, rules: ScoreRules) -> int {
    m.trade_completed * rules.trade_completed_weight
        + m.trade_completed_with_like * rules.trade_completed_with_like_weight
        + m.trade_completed_with_dislike * rules.trade_completed_with_dislike_weight
        + m.trade_refunded * rules.trade_refunded_weight
        + m.trade_refunded_with_dislike * rules.trade_refunded_with_dislike_weight
}

/// The derived reputation value: weighted sum over volume, truncated
/// towards zero by integer division.
pub open spec fn spec_reputation(m: ScoreModel, rules: ScoreRules) -> int
    recommends
        volume(m) > 0,
{
    weighted(m, rules) / volume(m)
}

/// Both intermediate values of the derivation fit the machine word.
pub open spec fn scoring_fits(m: ScoreModel, rules: ScoreRules) -> bool {
    volume(m) <= u128::MAX && weighted(m, rules) <= u128::MAX
}

/// Consistency of a record: the liked/disliked sub-counters of completed
/// trades partition the completed volume, and the refund sub-counter
/// never exceeds the refunded volume.
pub open spec fn consistent(m: ScoreModel) -> bool {
    &&& m.trade_completed_with_like + m.trade_completed_with_dislike == m.trade_completed
    &&& 0 <= m.trade_completed_with_like
    &&& 0 <= m.trade_completed_with_dislike
    &&& 0 <= m.trade_refunded_with_dislike
    &&& m.trade_refunded_with_dislike <= m.trade_refunded
    &&& 0 <= m.closed_dispute_against
}

/// The record a sequence of reported outcomes builds up, starting from
/// the zero record of a fresh counterparty.
pub open spec fn replay(events: Seq<(OutcomeKind, bool)>) -> ScoreModel
    decreases events.len(),
{
    if events.len() == 0 {
        zero_model()
    } else {
        step(replay(events.drop_last()), events.last().0, events.last().1)
    }
}

/// How many of the events are completed trades.
pub open spec fn count_completed(events: Seq<(OutcomeKind, bool)>) -> int
    decreases events.len(),
{
    if events.len() == 0 {
        0
    } else {
        count_completed(events.drop_last()) + if events.last().0 is Completed {
            1int
        } else {
            0int
        }
    }
}

/// How many of the events are completed trades the counterparty liked.
pub open spec fn count_completed_with_like(events: Seq<(OutcomeKind, bool)>) -> int
    decreases events.len(),
{
    if events.len() == 0 {
        0
    } else {
        count_completed_with_like(events.drop_last()) + if events.last().0 is Completed
            && events.last().1 {
            1int
        } else {
            0int
        }
    }
}

/// How many of the events are completed trades the counterparty disliked.
pub open spec fn count_completed_with_dislike(events: Seq<(OutcomeKind, bool)>) -> int
    decreases events.len(),
{
    if events.len() == 0 {
        0
    } else {
        count_completed_with_dislike(events.drop_last()) + if events.last().0 is Completed
            && !events.last().1 {
            1int
        } else {
            0int
        }
    }
}

/// How many of the events are refunded trades.
pub open spec fn count_refunded(events: Seq<(OutcomeKind, bool)>) -> int
    decreases events.len(),
{
    if events.len() == 0 {
        0
    } else {
        count_refunded(events.drop_last()) + if events.last().0 is Refunded {
            1int
        } else {
            0int
        }
    }
}

/// How many of the events are refunded trades the counterparty disliked.
pub open spec fn count_refunded_with_dislike(events: Seq<(OutcomeKind, bool)>) -> int
    decreases events.len(),
{
    if events.len() == 0 {
        0
    } else {
        count_refunded_with_dislike(events.drop_last()) + if events.last().0 is Refunded
            && !events.last().1 {
            1int
        } else {
            0int
        }
    }
}

/// How many of the events are disputes closed against the counterparty.
pub open spec fn count_disputes(events: Seq<(OutcomeKind, bool)>) -> int
    decreases events.len(),
{
    if events.len() == 0 {
        0
    } else {
        count_disputes(events.drop_last()) + if events.last().0 is DisputedAgainst {
            1int
        } else {
            0int
        }
    }
}

/// One reported outcome never shrinks a counter: every counter of the
/// record after the transition is at least what it was before.
pub proof fn lemma_step_monotone(m: ScoreModel, kind: OutcomeKind, liked: bool)
    ensures
        step(m, kind, liked).trade_completed >= m.trade_completed,
        step(m, kind, liked).trade_completed_with_like >= m.trade_completed_with_like,
        step(m, kind, liked).trade_completed_with_dislike >= m.trade_completed_with_dislike,
        step(m, kind, liked).trade_refunded >= m.trade_refunded,
        step(m, kind, liked).trade_refunded_with_dislike >= m.trade_refunded_with_dislike,
        step(m, kind, liked).closed_dispute_against >= m.closed_dispute_against,
{
}

/// After any sequence of reported outcomes, every counter equals
/// exactly the count of events matching its category — and so, with
/// `lemma_step_monotone`, only ever grows.
pub proof fn lemma_replay_counts(events: Seq<(OutcomeKind, bool)>)
    ensures
        replay(events).trade_completed == count_completed(events),
        replay(events).trade_completed_with_like == count_completed_with_like(events),
        replay(events).trade_completed_with_dislike == count_completed_with_dislike(events),
        replay(events).trade_refunded == count_refunded(events),
        replay(events).trade_refunded_with_dislike == count_refunded_with_dislike(events),
        replay(events).closed_dispute_against == count_disputes(events),
    decreases events.len(),
{
    if events.len() > 0 {
        lemma_replay_counts(events.drop_last());
    }
}

/// One reported outcome keeps a record consistent: the liked and
/// disliked sub-counters still partition the completed volume, and the
/// refund sub-counter still stays within the refunded volume.
pub proof fn lemma_step_preserves_consistent(m: ScoreModel, kind: OutcomeKind, liked: bool)
    requires
        consistent(m),
    ensures
        consistent(step(m, kind, liked)),
{
}

/// Any sequence of reported outcomes leaves a fresh counterparty's
/// record consistent.
pub proof fn lemma_replay_consistent(events: Seq<(OutcomeKind, bool)>)
    ensures
        consistent(replay(events)),
    decreases events.len(),
{
    if events.len() > 0 {
        lemma_replay_consistent(events.drop_last());
        lemma_step_preserves_consistent(
            replay(events.drop_last()),
            events.last().0,
            events.last().1,
        );
    }
}

impl Score {
    /// A fresh record with every counter at zero, as created on a
    /// counterparty's first event.
    pub fn zero() -> (r: Score)
        ensures
            r@ == zero_model(),
    {
        Score {
            trade_completed: 0,
            trade_completed_with_like: 0,
            trade_completed_with_dislike: 0,
            trade_refunded: 0,
            trade_refunded_with_dislike: 0,
            closed_dispute_against: 0,
        }
    }

    /// Whether the transition for this event has headroom: the test an
    /// unverified caller makes before `apply`.
    pub fn can_apply(&self, kind: OutcomeKind, liked: bool) -> (b: bool)
        ensures
            b == can_record(self@, kind, liked),
    {
        match kind {
            OutcomeKind::Completed => self.trade_completed < u128::MAX && if liked {
                self.trade_completed_with_like < u128::MAX
            } else {
                self.trade_completed_with_dislike < u128::MAX
            },
            OutcomeKind::Refunded => self.trade_refunded < u128::MAX && (liked
                || self.trade_refunded_with_dislike < u128::MAX),
            OutcomeKind::DisputedAgainst => self.closed_dispute_against < u128::MAX,
        }
    }

    /// The record after one reported outcome; the caller's record is
    /// unchanged. This is the single mutating transition of the ledger.
    pub fn apply(&self, kind: OutcomeKind, liked: bool) -> (r: Score)
        requires
            can_record(self@, kind, liked),
        ensures
            r@ == step(self@, kind, liked),
    {
        match kind {
            OutcomeKind::Completed => if liked {
                Score {
                    trade_completed: self.trade_completed + 1,
                    trade_completed_with_like: self.trade_completed_with_like + 1,
                    ..*self
                }
            } else {
                Score {
                    trade_completed: self.trade_completed + 1,
                    trade_completed_with_dislike: self.trade_completed_with_dislike + 1,
                    ..*self
                }
            },
            OutcomeKind::Refunded => if liked {
                Score { trade_refunded: self.trade_refunded + 1, ..*self }
            } else {
                Score {
                    trade_refunded: self.trade_refunded + 1,
                    trade_refunded_with_dislike: self.trade_refunded_with_dislike + 1,
                    ..*self
                }
            },
            OutcomeKind::DisputedAgainst => Score {
                closed_dispute_against: self.closed_dispute_against + 1,
                ..*self
            },
        }
    }

    /// Total trade volume of the record.
    pub fn total_trades(&self) -> (r: u128)
        requires
            volume(self@) <= u128::MAX,
        ensures
            r == volume(self@),
    {
        self.trade_completed + self.trade_completed_with_like + self.trade_completed_with_dislike
            + self.trade_refunded + self.trade_refunded_with_dislike
    }

    /// The trade volume, or nothing where the sum exceeds the machine
    /// word.
    pub fn checked_volume(&self) -> (r: Option<u128>)
        ensures
            match r {
                Option::Some(v) => v == volume(self@),
                Option::None => volume(self@) > u128::MAX,
            },
    {
        let a = match self.trade_completed.checked_add(self.trade_completed_with_like) {
            Some(v) => v,
            None => {
                return None;
            },
        };
        let b = match a.checked_add(self.trade_completed_with_dislike) {
            Some(v) => v,
            None => {
                return None;
            },
        };
        let c = match b.checked_add(self.trade_refunded) {
            Some(v) => v,
            None => {
                return None;
            },
        };
        match c.checked_add(self.trade_refunded_with_dislike) {
            Some(v) => Some(v),
            None => None,
        }
    }

    /// The weighted sum of the trade counters, or nothing where it
    /// exceeds the machine word.
    pub fn checked_weighted(&self, rules: &ScoreRules) -> (r: Option<u128>)
        ensures
            match r {
                Option::Some(v) => v == weighted(self@, *rules),
                Option::None => weighted(self@, *rules) > u128::MAX,
            },
    {
        proof {
            lemma_mul_nonnegative(self@.trade_completed, rules.trade_completed_weight as int);
            lemma_mul_nonnegative(
                self@.trade_completed_with_like,
                rules.trade_completed_with_like_weight as int,
            );
            lemma_mul_nonnegative(
                self@.trade_completed_with_dislike,
                rules.trade_completed_with_dislike_weight as int,
            );
            lemma_mul_nonnegative(self@.trade_refunded, rules.trade_refunded_weight as int);
            lemma_mul_nonnegative(
                self@.trade_refunded_with_dislike,
                rules.trade_refunded_with_dislike_weight as int,
            );
        }
        let t1 = match self.trade_completed.checked_mul(rules.trade_completed_weight) {
            Some(v) => v,
            None => {
                return None;
            },
        };
        let t2 = match self.trade_completed_with_like.checked_mul(
            rules.trade_completed_with_like_weight,
        ) {
            Some(v) => v,
            None => {
                return None;
            },
        };
        let t3 = match self.trade_completed_with_dislike.checked_mul(
            rules.trade_completed_with_dislike_weight,
        ) {
            Some(v) => v,
            None => {
                return None;
            },
        };
        let t4 = match self.trade_refunded.checked_mul(rules.trade_refunded_weight) {
            Some(v) => v,
            None => {
                return None;
            },
        };
        let t5 = match self.trade_refunded_with_dislike.checked_mul(
            rules.trade_refunded_with_dislike_weight,
        ) {
            Some(v) => v,
            None => {
                return None;
            },
        };
        let s1 = match t1.checked_add(t2) {
            Some(v) => v,
            None => {
                return None;
            },
        };
        let s2 = match s1.checked_add(t3) {
            Some(v) => v,
            None => {
                return None;
            },
        };
        let s3 = match s2.checked_add(t4) {
            Some(v) => v,
            None => {
                return None;
            },
        };
        match s3.checked_add(t5) {
            Some(v) => Some(v),
            None => None,
        }
    }

    /// The derived reputation value under the given rule table: the
    /// weighted sum of the trade counters divided by the trade volume,
    /// truncated towards zero.
    pub fn calculate_reputation(&self, rules: ScoreRules) -> (r: u128)
        requires
            volume(self@) > 0,
            scoring_fits(self@, rules),
        ensures
            r == spec_reputation(self@, rules),
    {
        proof {
            lemma_mul_nonnegative(self@.trade_completed, rules.trade_completed_weight as int);
            lemma_mul_nonnegative(
                self@.trade_completed_with_like,
                rules.trade_completed_with_like_weight as int,
            );
            lemma_mul_nonnegative(
                self@.trade_completed_with_dislike,
                rules.trade_completed_with_dislike_weight as int,
            );
            lemma_mul_nonnegative(self@.trade_refunded, rules.trade_refunded_weight as int);
            lemma_mul_nonnegative(
                self@.trade_refunded_with_dislike,
                rules.trade_refunded_with_dislike_weight as int,
            );
        }
        let trade_completed_rating = self.trade_completed * rules.trade_completed_weight;
        let trade_completed_with_like_rating = self.trade_completed_with_like
            * rules.trade_completed_with_like_weight;
        let trade_completed_with_dislike_rating = self.trade_completed_with_dislike
            * rules.trade_completed_with_dislike_weight;
        let trade_refunded_rating = self.trade_refunded * rules.trade_refunded_weight;
        let trade_refunded_with_dislike_rating = self.trade_refunded_with_dislike
            * rules.trade_refunded_with_dislike_weight;

        let numerator = trade_completed_rating + trade_completed_with_like_rating
            + trade_completed_with_dislike_rating + trade_refunded_rating
            + trade_refunded_with_dislike_rating;
        numerator / self.total_trades()
    }
}

} // verus!
