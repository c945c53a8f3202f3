//! Strategy candidates: a signal, the order it suggests and an optional
//! advisory score.

use vstd::prelude::*;
use crate::domain::{AdvisoryScore, OrderIntent, Signal};
use crate::domain::instrument::normalize_text;
use crate::errors::DomainError;
use crate::text::trim_seq;

verus! {

/// A candidate trade produced by a strategy.
#[derive(Debug, Clone, PartialEq, Eq)]
pub struct StrategyCandidate {
    pub candidate_id: String,
    pub signal: Signal,
    pub order_intent: OrderIntent,
    pub advisory_score: Option<AdvisoryScore>,
}

impl StrategyCandidate {
    /// A candidate with a trimmed id; refused when the id is blank. The
    /// order intent and advisory score are kept as given: advice never
    /// changes the order.
    pub fn new(
        candidate_id: &str,
        signal: Signal,
        order_intent: OrderIntent,
        advisory_score: Option<AdvisoryScore>,
    ) -> (r: Result<Self, DomainError>)
        ensures
            trim_seq(candidate_id@).len() == 0 ==> (r matches Err(DomainError::EmptyField { field })
                && field@ == "candidate_id"@),
            trim_seq(candidate_id@).len() > 0 ==> (r matches Ok(c) && c.candidate_id@ == trim_seq(
                candidate_id@,
            ) && c.signal == signal && c.order_intent == order_intent && c.advisory_score
                == advisory_score),
    {
        let candidate_id = normalize_text(candidate_id, "candidate_id")?;
        Ok(StrategyCandidate { candidate_id, signal, order_intent, advisory_score })
    }
}

} // verus!
