use tessera_model_gate::domain::{
    evaluate_gate, one, ExecutionMode, ExecutionStatus, GateStatus, QualityGate, StartRunRequest,
};

fn gate() -> QualityGate {
    QualityGate { deterministic_pass_required: true, minimum_human_score: Some(4), maximum_latency_ms: Some(1_000) }
}

#[test]
fn human_review_is_required_before_eligibility() {
    assert_eq!(
        evaluate_gate(&gate(), &ExecutionMode::Live, &ExecutionStatus::Completed, true, Some(500), None),
        GateStatus::PendingHumanReview
    );
}

#[test]
fn latency_failure_cannot_be_overridden_by_human_score() {
    assert_eq!(
        evaluate_gate(&gate(), &ExecutionMode::Live, &ExecutionStatus::Completed, true, Some(1_001), Some(5)),
        GateStatus::Rejected
    );
}

#[test]
fn demo_run_never_becomes_eligible() {
    assert_eq!(
        evaluate_gate(&gate(), &ExecutionMode::Demo, &ExecutionStatus::Completed, true, Some(500), Some(5)),
        GateStatus::DemoOnly
    );
}

#[test]
fn repetition_count_is_clamped() {
    let request = StartRunRequest { task_ids: vec![], model_ids: vec![], demo: true, repetitions: Some(99) };
    assert_eq!(request.repetition_count(), 5);
    let default = StartRunRequest { task_ids: vec![], model_ids: vec![], demo: true, repetitions: None };
    assert_eq!(default.repetition_count(), 1);
}

#[test]
fn zero_repetitions_become_one() {
    let request = StartRunRequest { task_ids: vec![], model_ids: vec![], demo: false, repetitions: Some(0) };
    assert_eq!(request.repetition_count(), 1);
    let three = StartRunRequest { task_ids: vec![], model_ids: vec![], demo: false, repetitions: Some(3) };
    assert_eq!(three.repetition_count(), 3);
}

#[test]
fn live_run_meeting_every_gate_is_eligible() {
    assert_eq!(
        evaluate_gate(&gate(), &ExecutionMode::Live, &ExecutionStatus::Completed, true, Some(1_000), Some(4)),
        GateStatus::Eligible
    );
}

#[test]
fn low_human_score_is_rejected() {
    assert_eq!(
        evaluate_gate(&gate(), &ExecutionMode::Live, &ExecutionStatus::Completed, true, Some(500), Some(3)),
        GateStatus::Rejected
    );
}

#[test]
fn provider_error_and_failed_grader_are_rejected() {
    assert_eq!(
        evaluate_gate(&gate(), &ExecutionMode::Live, &ExecutionStatus::ProviderError, true, Some(10), Some(5)),
        GateStatus::Rejected
    );
    assert_eq!(
        evaluate_gate(&gate(), &ExecutionMode::Live, &ExecutionStatus::Completed, false, Some(10), Some(5)),
        GateStatus::Rejected
    );
}

#[test]
fn missing_latency_fails_a_latency_gate() {
    assert_eq!(
        evaluate_gate(&gate(), &ExecutionMode::Live, &ExecutionStatus::Completed, true, None, Some(5)),
        GateStatus::Rejected
    );
}

#[test]
fn default_gate_needs_only_the_grader() {
    let g = QualityGate::default();
    assert!(g.deterministic_pass_required);
    assert_eq!(
        evaluate_gate(&g, &ExecutionMode::LegacyUnknown, &ExecutionStatus::Completed, true, None, None),
        GateStatus::Eligible
    );
    assert_eq!(evaluate_gate(&g, &ExecutionMode::Demo, &ExecutionStatus::Completed, true, None, None), GateStatus::DemoOnly);
}

#[test]
fn defaults_and_one() {
    assert_eq!(one(), 1);
    assert_eq!(GateStatus::default(), GateStatus::PendingHumanReview);
    assert_eq!(ExecutionMode::default(), ExecutionMode::LegacyUnknown);
    assert_eq!(ExecutionStatus::default(), ExecutionStatus::Completed);
}
