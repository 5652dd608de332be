//! Human review of stored evidence, and the form in which evidence is read
//! back.

use vstd::prelude::*;

use crate::domain::{gate_outcome, is_sensitive, evaluate_gate, DataClassification, RunResult};
use crate::text::trim;
use crate::text::trimmed;

verus! {

/// Why a review was refused.
#[derive(Debug, PartialEq, Eq)]
pub enum ReviewError {
    /// The human score must be from 1 to 5.
    ScoreOutOfRange,
    /// The name of the person scoring must contain 1 to 80 characters.
    ReviewerName,
}

/// The most characters of the name of the person scoring.
pub const MAX_REVIEWER_CHARS: usize = 80;

/// The text that explains a refused review.
pub open spec fn review_error_text(e: ReviewError) -> Seq<char> {
    match e {
        ReviewError::ScoreOutOfRange => "The human score must be from 1 to 5"@,
        ReviewError::ReviewerName => "The name of the person scoring must contain 1 to 80 characters"@,
    }
}

impl ReviewError {
    /// The explanation of the refusal.
    pub fn message(&self) -> (s: &'static str)
        ensures
            s@ == review_error_text(*self),
    {
        match self {
            ReviewError::ScoreOutOfRange => "The human score must be from 1 to 5",
            ReviewError::ReviewerName => "The name of the person scoring must contain 1 to 80 characters",
        }
    }
}

/// Why a review with this score and name is refused, if it is.
pub open spec fn review_error(score: u8, reviewer: Seq<char>) -> Option<ReviewError> {
    if !(1 <= score <= 5) {
        Some(ReviewError::ScoreOutOfRange)
    } else if trimmed(reviewer).len() == 0 || trimmed(reviewer).len() > MAX_REVIEWER_CHARS {
        Some(ReviewError::ReviewerName)
    } else {
        None
    }
}

/// Check a review: a score from 1 to 5 and an identified person scoring.
/// Their name, trimmed, is returned.
pub fn validate_review(score: u8, reviewer: &str) -> (r: Result<String, ReviewError>)
    ensures
        match review_error(score, reviewer@) {
            Some(e) => r == Err::<String, ReviewError>(e),
            None => (r matches Ok(name) && name@ == trimmed(reviewer@)),
        },
{
    if !(1 <= score && score <= 5) {
        return Err(ReviewError::ScoreOutOfRange);
    }
    let name = trim(reviewer);
    let n = name.unicode_len();
    if n == 0 || n > MAX_REVIEWER_CHARS {
        return Err(ReviewError::ReviewerName);
    }
    Ok(name.to_owned())
}

/// `after` is `before` with only the review fields possibly changed.
pub open spec fn same_but_review(before: RunResult, after: RunResult) -> bool {
    after == (RunResult {
        human_quality_score: after.human_quality_score,
        reviewer: after.reviewer,
        reviewed_at: after.reviewed_at,
        gate_status: after.gate_status,
        ..before
    })
}

/// `after` is `before` with the review recorded: the score, the trimmed name
/// of the person scoring, the review time, and the quality gate decision with the
/// score.
pub open spec fn review_recorded(
    before: RunResult,
    after: RunResult,
    score: u8,
    reviewer: Seq<char>,
    reviewed_at: String,
) -> bool {
    &&& same_but_review(before, after)
    &&& after.human_quality_score == Some(score)
    &&& after.reviewer matches Some(name) && name@ == trimmed(reviewer)
    &&& after.reviewed_at == Some(reviewed_at)
    &&& after.gate_status == gate_outcome(
        before.quality_gate,
        before.execution_mode,
        before.execution_status,
        before.deterministic_pass,
        before.latency_ms,
        Some(score),
    )
}

/// Record a human review on a result: the score, the trimmed name of the
/// person scoring, the review time, and the quality gate decision with the score. A
/// refused review
/// leaves the result unchanged.
pub fn apply_review(result: &mut RunResult, score: u8, reviewer: &str, reviewed_at: String) -> (r: Result<
    (),
    ReviewError,
>)
    ensures
        match review_error(score, reviewer@) {
            Some(e) => r == Err::<(), ReviewError>(e) && *final(result) == *old(result),
            None => r is Ok && review_recorded(*old(result), *final(result), score, reviewer@, reviewed_at),
        },
{
    let name = match validate_review(score, reviewer) {
        Ok(n) => n,
        Err(e) => return Err(e),
    };
    result.human_quality_score = Some(score);
    result.reviewer = Some(name);
    result.reviewed_at = Some(reviewed_at);
    result.gate_status = evaluate_gate(
        &result.quality_gate,
        &result.execution_mode,
        &result.execution_status,
        result.deterministic_pass,
        result.latency_ms,
        Some(score),
    );
    Ok(())
}

/// A stored result as it is read back: with the score held beside it, and
/// without a preview for a confidential or restricted task.
pub fn present_stored(result: RunResult, score: Option<u8>) -> (r: RunResult)
    ensures
        r == (RunResult {
            human_quality_score: score,
            response_preview: if is_sensitive(result.data_classification) {
                None
            } else {
                result.response_preview
            },
            ..result
        }),
{
    let mut result = result;
    result.human_quality_score = score;
    if result.data_classification == DataClassification::Confidential || result.data_classification
        == DataClassification::Restricted {
        result.response_preview = None;
    }
    result
}

} // verus!
