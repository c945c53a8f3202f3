//! Advisory opinions on a market snapshot and signal.

use vstd::prelude::*;
use crate::domain::{MarketSnapshot, PercentBps, Signal};
use crate::domain::instrument::normalize_text;
use crate::errors::{AppError, DomainError};
use crate::text::trim_seq;

verus! {

/// What the advisor is asked about.
#[derive(Debug, Clone, PartialEq, Eq)]
pub struct AdvisoryContext {
    pub market: MarketSnapshot,
    pub signal: Signal,
}

/// The advisor's opinion: a score from -100 to 100, a confidence and a
/// reason.
#[derive(Debug, PartialEq, Eq)]
pub struct AdvisoryResult {
    pub score: i16,
    pub confidence: PercentBps,
    pub explanation: String,
}

impl Clone for AdvisoryResult {
    fn clone(&self) -> (r: Self)
        ensures
            r == *self,
    {
        AdvisoryResult {
            score: self.score,
            confidence: self.confidence,
            explanation: self.explanation.clone(),
        }
    }
}

impl AdvisoryResult {
    /// An opinion with a trimmed explanation; refused for a score outside
    /// -100..=100 or a blank explanation, in that order.
    pub fn new(score: i16, confidence: PercentBps, explanation: &str) -> (r: Result<Self, DomainError>)
        ensures
            match r {
                Ok(a) => -100 <= score <= 100 && trim_seq(explanation@).len() > 0 && a.score
                    == score && a.confidence == confidence && a.explanation@ == trim_seq(
                    explanation@,
                ),
                Err(e) => if !(-100 <= score <= 100) {
                    e matches DomainError::InvalidScore { value } && value == score
                } else {
                    trim_seq(explanation@).len() == 0 && (e matches DomainError::EmptyField {
                        field,
                    } && field@ == "explanation"@)
                },
            },
    {
        if !(-100 <= score && score <= 100) {
            return Err(DomainError::InvalidScore { value: score });
        }
        let explanation = normalize_text(explanation, "explanation")?;
        Ok(AdvisoryResult { score, confidence, explanation })
    }
}

/// Gives advisory opinions.
pub trait LlmAdvisor {
    fn advise(&self, context: AdvisoryContext) -> Result<AdvisoryResult, AppError>;
}

/// An advisor that answers every question with the same opinion.
#[derive(Debug, Clone)]
pub struct FixtureLlmAdvisor {
    advisory: AdvisoryResult,
}

impl FixtureLlmAdvisor {
    /// The opinion this advisor always gives.
    pub closed spec fn spec_advisory(&self) -> AdvisoryResult {
        self.advisory
    }

    /// An advisor that always answers `advisory`.
    pub fn new(advisory: AdvisoryResult) -> (r: Self)
        ensures
            r.spec_advisory() == advisory,
    {
        FixtureLlmAdvisor { advisory }
    }
}

impl LlmAdvisor for FixtureLlmAdvisor {
    fn advise(&self, context: AdvisoryContext) -> (r: Result<AdvisoryResult, AppError>)
        ensures
            r matches Ok(a) && a == self.spec_advisory(),
    {
        Ok(self.advisory.clone())
    }
}

} // verus!
