//! Trading signals from analysis sources.

use vstd::prelude::*;
use crate::errors::DomainError;
use crate::text::trim_seq;
use super::instrument::{normalize_text, PercentBps};
use super::market::validate_timestamp;

verus! {

/// An advisory score is a percentage in basis points.
pub type AdvisoryScore = PercentBps;

/// Where a signal comes from.
#[derive(Debug, Clone, Copy, PartialEq, Eq, Structural)]
pub enum SignalSource {
    Technical,
    News,
    Fundamental,
    Model,
    Manual,
}

/// A directional score from -100 to 100 with a confidence; `timestamp` is
/// in seconds since the Unix epoch.
#[derive(Debug, PartialEq, Eq)]
pub struct Signal {
    pub source: SignalSource,
    pub score: i16,
    pub confidence: PercentBps,
    pub timestamp: i64,
    pub explanation: String,
}

impl Clone for Signal {
    fn clone(&self) -> (r: Self)
        ensures
            r == *self,
    {
        Signal {
            source: self.source,
            score: self.score,
            confidence: self.confidence,
            timestamp: self.timestamp,
            explanation: self.explanation.clone(),
        }
    }
}

impl Signal {
    /// A signal with a trimmed explanation; refused for a score outside
    /// -100..=100, a pre-epoch time, or a blank explanation, in that order.
    pub fn new(
        source: SignalSource,
        score: i16,
        confidence: PercentBps,
        timestamp: i64,
        explanation: &str,
    ) -> (r: Result<Self, DomainError>)
        ensures
            match r {
                Ok(s) => {
                    &&& -100 <= score <= 100
                    &&& timestamp >= 0
                    &&& trim_seq(explanation@).len() > 0
                    &&& s.source == source
                    &&& s.score == score
                    &&& s.confidence == confidence
                    &&& s.timestamp == timestamp
                    &&& s.explanation@ == trim_seq(explanation@)
                },
                Err(e) => if !(-100 <= score <= 100) {
                    e matches DomainError::InvalidScore { value } && value == score
                } else if timestamp < 0 {
                    e matches DomainError::InvalidTimestamp
                } else {
                    &&& trim_seq(explanation@).len() == 0
                    &&& e matches DomainError::EmptyField { field } && field@ == "explanation"@
                },
            },
    {
        if !(-100 <= score && score <= 100) {
            return Err(DomainError::InvalidScore { value: score });
        }
        validate_timestamp(timestamp)?;
        let explanation = normalize_text(explanation, "explanation")?;
        Ok(Signal { source, score, confidence, timestamp, explanation })
    }
}

} // verus!
