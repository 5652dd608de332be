use tessera_model_gate::champions::{ChampionEntry, ChampionRegistry};
use tessera_model_gate::domain::{
    BenchmarkCatalog, BenchmarkTask, DataClassification, ExecutionMode, ExecutionStatus, GateStatus, GraderSpec,
    ModelCatalog, ModelConfig, QualityGate, RunResult, StartRunRequest,
};
use tessera_model_gate::provider::ModelAnswer;
use tessera_model_gate::run::{
    flag_regressions, record_attempt, reject_duplicates, validate_run_request, Attempt, AttemptSlot, RunPlan,
    RunRequestError,
};

fn run(task_id: &str, is_champion: bool, pass: bool) -> RunResult {
    RunResult {
        run_id: format!("{task_id}-{is_champion}-{pass}"),
        evaluation_id: "e".into(),
        created_at: "2026-07-23T00:00:00Z".into(),
        execution_mode: ExecutionMode::Demo,
        execution_status: ExecutionStatus::Completed,
        benchmark_version: "v".into(),
        model_catalog_version: "v".into(),
        task_id: task_id.into(),
        prompt_version: "1".into(),
        department: "d".into(),
        team: "t".into(),
        business_value: "b".into(),
        process: "p".into(),
        task_class: "c".into(),
        model_id: "m".into(),
        provider_model_id: "m".into(),
        quantisation: "Q8".into(),
        runtime: "r".into(),
        hardware: "h".into(),
        license: "l".into(),
        registry_source: "s".into(),
        artifact_digest: None,
        deterministic_pass: pass,
        grader_detail: "d".into(),
        quality_gate: QualityGate::default(),
        gate_status: GateStatus::default(),
        human_quality_score: None,
        reviewer: None,
        reviewed_at: None,
        latency_ms: None,
        tokens_in: None,
        tokens_out: None,
        estimated_cost_per_1000_tasks: None,
        cost_basis: None,
        repetition: 1,
        is_champion,
        regressed_vs_champion: false,
        data_classification: DataClassification::Internal,
        sovereignty_note: "n".into(),
        response_preview: None,
    }
}

#[test]
fn duplicate_ids_are_rejected_before_a_run() {
    let values = vec!["one".to_string(), "one".to_string()];
    assert!(reject_duplicates("task", &values).is_err());
}

#[test]
fn distinct_ids_are_accepted() {
    let values = vec!["one".to_string(), "two".to_string(), "One".to_string()];
    assert!(reject_duplicates("model", &values).is_ok());
    assert_eq!(
        reject_duplicates("model", &["a".to_string(), "b".to_string(), "a".to_string()]),
        Err(RunRequestError::DuplicateIds("model".into()))
    );
}

#[test]
fn challenger_failure_after_champion_pass_is_a_regression() {
    let mut results = vec![run("T1", true, true), run("T1", false, false)];
    flag_regressions(&mut results);
    assert!(!results[0].regressed_vs_champion);
    assert!(results[1].regressed_vs_champion);
}

#[test]
fn challenger_failure_without_champion_pass_is_not_a_regression() {
    let mut results = vec![run("T1", true, false), run("T1", false, false)];
    flag_regressions(&mut results);
    assert!(!results[1].regressed_vs_champion);
}

#[test]
fn champion_must_pass_every_repetition() {
    let mut results = vec![run("T1", true, true), run("T1", true, false), run("T1", false, false), run("T2", false, false)];
    flag_regressions(&mut results);
    assert!(results.iter().all(|r| !r.regressed_vs_champion));
    let mut other_task = vec![run("T1", true, true), run("T2", false, false), run("T1", false, true)];
    flag_regressions(&mut other_task);
    assert!(other_task.iter().all(|r| !r.regressed_vs_champion));
}

fn task(id: &str, class: DataClassification) -> BenchmarkTask {
    BenchmarkTask {
        id: id.into(),
        prompt_version: "3".into(),
        department: "Actuarial".into(),
        team: "Systems".into(),
        business_value: "value".into(),
        process: "process".into(),
        task_class: "log_extraction".into(),
        data_classification: class,
        prompt: "Find the errors.".into(),
        grader: GraderSpec::Exact { expected: "42".into() },
        quality_gate: QualityGate { deterministic_pass_required: true, minimum_human_score: Some(4), maximum_latency_ms: None },
    }
}

fn model(id: &str, provider: &str, allowed: Vec<DataClassification>, live: bool, enabled: bool) -> ModelConfig {
    ModelConfig {
        id: id.into(),
        display_name: id.into(),
        provider: provider.into(),
        model: format!("{id}-provider"),
        base_url: "http://127.0.0.1:1/v1".into(),
        api_key_env: None,
        quantisation: "Q8".into(),
        runtime: "llama.cpp".into(),
        hardware: "workstation".into(),
        input_cost_per_million: None,
        output_cost_per_million: None,
        cost_basis: None,
        license: "Apache-2.0".into(),
        registry_source: "hf".into(),
        artifact_digest: Some("sha256:a".into()),
        approved_for_live: live,
        allowed_data: allowed,
        enabled,
    }
}

fn catalogs() -> (BenchmarkCatalog, ModelCatalog) {
    (
        BenchmarkCatalog {
            version: "b1".into(),
            tasks: vec![task("T1", DataClassification::Internal), task("T2", DataClassification::Confidential)],
        },
        ModelCatalog {
            version: "m1".into(),
            models: vec![
                model("local", "local", vec![DataClassification::Internal, DataClassification::Confidential], true, true),
                model("hosted", "hosted", vec![DataClassification::Internal], false, true),
                model("off", "local", vec![DataClassification::Internal], true, false),
            ],
        },
    )
}

fn request(tasks: &[&str], models: &[&str], demo: bool) -> StartRunRequest {
    StartRunRequest {
        task_ids: tasks.iter().map(|s| s.to_string()).collect(),
        model_ids: models.iter().map(|s| s.to_string()).collect(),
        demo,
        repetitions: None,
    }
}

#[test]
fn valid_request_resolves_catalog_entries() {
    let (b, m) = catalogs();
    let plan = validate_run_request(&b, &m, &request(&["T2", "T1"], &["local"], false)).unwrap();
    assert_eq!(plan.task_indices, vec![1, 0]);
    assert_eq!(plan.model_indices, vec![0]);
    let demo = validate_run_request(&b, &m, &request(&["T1"], &["hosted", "local"], true)).unwrap();
    assert_eq!(demo.model_indices, vec![1, 0]);
}

#[test]
fn each_request_error_is_reported() {
    let (b, m) = catalogs();
    assert_eq!(validate_run_request(&b, &m, &request(&[], &["local"], true)).err(), Some(RunRequestError::EmptySelection));
    assert_eq!(
        validate_run_request(&b, &m, &request(&["T1", "T1"], &["local"], true)).err(),
        Some(RunRequestError::DuplicateIds("task".into()))
    );
    assert_eq!(
        validate_run_request(&b, &m, &request(&["T9"], &["local"], true)).err(),
        Some(RunRequestError::UnknownTask("T9".into()))
    );
    assert_eq!(
        validate_run_request(&b, &m, &request(&["T1"], &["off"], true)).err(),
        Some(RunRequestError::UnknownModel("off".into()))
    );
    assert_eq!(
        validate_run_request(&b, &m, &request(&["T1", "T2"], &["local", "hosted"], true)).err(),
        Some(RunRequestError::DataClassNotAllowed { model_id: "hosted".into(), task_id: "T2".into() })
    );
    assert_eq!(
        validate_run_request(&b, &m, &request(&["T1"], &["hosted"], false)).err(),
        Some(RunRequestError::NotApprovedForLive("hosted".into()))
    );
}

fn champions() -> ChampionRegistry {
    ChampionRegistry { champions: vec![ChampionEntry { task_class: "log_extraction".into(), model_id: "local".into(), since: None }] }
}

fn attempt(answer: Option<ModelAnswer>) -> Attempt {
    Attempt {
        run_id: "r1".into(),
        evaluation_id: "e1".into(),
        created_at: "2026-07-23T00:00:00Z".into(),
        repetition: 2,
        answer,
        answer_json: None,
        estimated_cost_per_1000_tasks: Some(3.0f64.to_bits()),
    }
}

#[test]
fn attempt_record_carries_the_evidence() {
    let (b, m) = catalogs();
    let answer = ModelAnswer { text: " 42 ".into(), latency_ms: 120, tokens_in: Some(10), tokens_out: Some(2) };
    let r = record_attempt(&b, &m, &champions(), &b.tasks[0], &m.models[0], false, attempt(Some(answer)));
    assert_eq!(r.run_id, "r1");
    assert_eq!(r.execution_mode, ExecutionMode::Live);
    assert_eq!(r.execution_status, ExecutionStatus::Completed);
    assert!(r.deterministic_pass);
    assert_eq!(r.grader_detail, "Exact match: true");
    assert_eq!(r.gate_status, GateStatus::PendingHumanReview);
    assert_eq!(r.benchmark_version, "b1");
    assert_eq!(r.model_catalog_version, "m1");
    assert_eq!(r.provider_model_id, "local-provider");
    assert_eq!(r.latency_ms, Some(120));
    assert_eq!(r.estimated_cost_per_1000_tasks, Some(3.0f64.to_bits()));
    assert_eq!(r.repetition, 2);
    assert!(r.is_champion);
    assert!(!r.regressed_vs_champion);
    assert_eq!(r.sovereignty_note, "Declared local route. Endpoint location is not independently verified.");
    assert_eq!(r.response_preview.as_deref(), Some(" 42 "));
}

#[test]
fn provider_failure_is_recorded_as_rejected() {
    let (b, m) = catalogs();
    let r = record_attempt(&b, &m, &champions(), &b.tasks[0], &m.models[1], true, attempt(None));
    assert_eq!(r.execution_mode, ExecutionMode::Demo);
    assert_eq!(r.execution_status, ExecutionStatus::ProviderError);
    assert!(!r.deterministic_pass);
    assert_eq!(r.grader_detail, "Model call failed. Inspect the service log.");
    assert_eq!(r.gate_status, GateStatus::Rejected);
    assert_eq!(r.latency_ms, None);
    assert!(!r.is_champion);
    assert_eq!(r.sovereignty_note, "Hosted route. Confirm the provider region, contract, and data controls before use.");
    assert_eq!(r.response_preview, None);
}

#[test]
fn confidential_preview_is_omitted_and_long_previews_are_cut() {
    let (b, m) = catalogs();
    let long = "x".repeat(300);
    let answer = ModelAnswer { text: long.clone(), latency_ms: 1, tokens_in: None, tokens_out: None };
    let secret = record_attempt(&b, &m, &champions(), &b.tasks[1], &m.models[0], true, attempt(Some(answer)));
    assert_eq!(secret.response_preview, None);
    assert_eq!(secret.gate_status, GateStatus::Rejected);
    let answer = ModelAnswer { text: long, latency_ms: 1, tokens_in: None, tokens_out: None };
    let open = record_attempt(&b, &m, &champions(), &b.tasks[0], &m.models[0], true, attempt(Some(answer)));
    assert_eq!(open.response_preview.map(|p| p.chars().count()), Some(240));
}

#[test]
fn grader_failure_is_explained() {
    let (mut b, m) = catalogs();
    b.tasks[0].grader = GraderSpec::JsonFields { fields: vec!["risk".into()] };
    let answer = ModelAnswer { text: "plain".into(), latency_ms: 1, tokens_in: None, tokens_out: None };
    let r = record_attempt(&b, &m, &champions(), &b.tasks[0], &m.models[0], true, attempt(Some(answer)));
    assert!(!r.deterministic_pass);
    assert_eq!(r.grader_detail, "Grader failure: The answer is not valid JSON");
}

#[test]
fn challenger_failure_without_a_champion_run_is_not_a_regression() {
    let mut results = vec![run("T2", true, true), run("T1", false, false)];
    flag_regressions(&mut results);
    assert!(!results[0].regressed_vs_champion);
    assert!(!results[1].regressed_vs_champion);
}

#[test]
fn attempts_run_tasks_then_models_then_repetitions() {
    let plan = RunPlan { task_indices: vec![4, 2], model_indices: vec![7, 1, 3] };
    let slots = plan.attempts(2);
    assert_eq!(slots.len(), 12);
    assert_eq!(slots[0], AttemptSlot { task_index: 4, model_index: 7, model_order: 0, repetition: 1 });
    assert_eq!(slots[1], AttemptSlot { task_index: 4, model_index: 7, model_order: 0, repetition: 2 });
    assert_eq!(slots[2], AttemptSlot { task_index: 4, model_index: 1, model_order: 1, repetition: 1 });
    assert_eq!(slots[5], AttemptSlot { task_index: 4, model_index: 3, model_order: 2, repetition: 2 });
    assert_eq!(slots[6], AttemptSlot { task_index: 2, model_index: 7, model_order: 0, repetition: 1 });
    assert_eq!(slots[11], AttemptSlot { task_index: 2, model_index: 3, model_order: 2, repetition: 2 });
    assert!(plan.attempts(0).is_empty());
    assert!(RunPlan { task_indices: vec![], model_indices: vec![1] }.attempts(5).is_empty());
}

#[test]
fn request_refusals_are_explained() {
    assert_eq!(RunRequestError::EmptySelection.message(), "Select at least one task and one model");
    assert_eq!(RunRequestError::DuplicateIds("task".into()).message(), "Duplicate task IDs are not allowed");
    assert_eq!(RunRequestError::UnknownModel("m".into()).message(), "Unknown or disabled model: m");
    assert_eq!(
        RunRequestError::DataClassNotAllowed { model_id: "m".into(), task_id: "T1".into() }.message(),
        "Model m is not approved for the data class used by task T1"
    );
}
