use tessera_model_gate::config::{validate, ConfigError};
use tessera_model_gate::domain::{
    BenchmarkCatalog, BenchmarkTask, DataClassification, GraderSpec, ModelCatalog, ModelConfig, QualityGate,
};

fn task(id: &str) -> BenchmarkTask {
    BenchmarkTask {
        id: id.into(),
        prompt_version: "1".into(),
        department: "d".into(),
        team: "t".into(),
        business_value: "b".into(),
        process: "p".into(),
        task_class: "c".into(),
        data_classification: DataClassification::Internal,
        prompt: "prompt".into(),
        grader: GraderSpec::Exact { expected: "x".into() },
        quality_gate: QualityGate::default(),
    }
}

fn model(id: &str, provider: &str, base_url: &str) -> ModelConfig {
    ModelConfig {
        id: id.into(),
        display_name: id.into(),
        provider: provider.into(),
        model: id.into(),
        base_url: base_url.into(),
        api_key_env: None,
        quantisation: "Q8".into(),
        runtime: "llama.cpp".into(),
        hardware: "workstation".into(),
        input_cost_per_million: None,
        output_cost_per_million: None,
        cost_basis: None,
        license: "Apache-2.0".into(),
        registry_source: "hf".into(),
        artifact_digest: None,
        approved_for_live: false,
        allowed_data: vec![DataClassification::Internal],
        enabled: true,
    }
}

fn catalogs(tasks: Vec<BenchmarkTask>, models: Vec<ModelConfig>) -> (BenchmarkCatalog, ModelCatalog) {
    (
        BenchmarkCatalog { version: "b1".into(), tasks },
        ModelCatalog { version: "m1".into(), models },
    )
}

fn check(tasks: Vec<BenchmarkTask>, models: Vec<ModelConfig>) -> Result<(), ConfigError> {
    let (b, m) = catalogs(tasks, models);
    validate(&b, &m)
}

#[test]
fn consistent_catalogs_are_accepted() {
    let mut hosted = model("h1", "hosted", "https://api.example.com/v1");
    hosted.approved_for_live = true;
    hosted.artifact_digest = Some("sha256:abc".into());
    hosted.input_cost_per_million = Some(2.0f64.to_bits());
    hosted.output_cost_per_million = Some(10.0f64.to_bits());
    hosted.cost_basis = Some("vendor price list 2026-07".into());
    let models = vec![
        model("l1", "local", "http://127.0.0.1:11434/v1"),
        model("l2", "local", "http://localhost:8000/v1"),
        model("l3", "local", "http://[::1]:8000/v1"),
        hosted,
    ];
    assert_eq!(check(vec![task("T1"), task("T2")], models), Ok(()));
    assert_eq!(check(vec![], vec![]), Ok(()));
}

#[test]
fn task_ids_must_be_present_and_unique() {
    assert_eq!(check(vec![task("  ")], vec![]), Err(ConfigError::InvalidTaskIds));
    assert_eq!(check(vec![task("T1"), task("T1")], vec![]), Err(ConfigError::InvalidTaskIds));
}

#[test]
fn task_needs_a_prompt_version() {
    let mut t = task("T1");
    t.prompt_version = " ".into();
    assert_eq!(check(vec![t], vec![]), Err(ConfigError::MissingPromptVersion("T1".into())));
}

#[test]
fn human_score_gate_must_be_from_one_to_five() {
    let mut t = task("T1");
    t.quality_gate.minimum_human_score = Some(0);
    assert_eq!(check(vec![t], vec![]), Err(ConfigError::InvalidHumanScoreGate("T1".into())));
    let mut t = task("T1");
    t.quality_gate.minimum_human_score = Some(6);
    assert_eq!(check(vec![t], vec![]), Err(ConfigError::InvalidHumanScoreGate("T1".into())));
    let mut t = task("T1");
    t.quality_gate.minimum_human_score = Some(5);
    assert_eq!(check(vec![t], vec![]), Ok(()));
}

#[test]
fn model_ids_must_be_present_and_unique() {
    let m = || model("m", "local", "http://127.0.0.1:1");
    assert_eq!(check(vec![], vec![m(), m()]), Err(ConfigError::InvalidModelIds));
    assert_eq!(check(vec![], vec![model("", "local", "http://127.0.0.1:1")]), Err(ConfigError::InvalidModelIds));
}

#[test]
fn local_models_need_a_loopback_endpoint() {
    assert_eq!(
        check(vec![], vec![model("l", "local", "http://10.0.0.5:8000")]),
        Err(ConfigError::LocalEndpointNotLoopback("l".into()))
    );
    assert_eq!(
        check(vec![], vec![model("l", "local", "https://127.0.0.1")]),
        Err(ConfigError::LocalEndpointNotLoopback("l".into()))
    );
}

#[test]
fn hosted_models_need_https() {
    assert_eq!(
        check(vec![], vec![model("h", "hosted", "http://api.example.com")]),
        Err(ConfigError::HostedEndpointNotHttps("h".into()))
    );
}

#[test]
fn unknown_provider_is_refused() {
    assert_eq!(
        check(vec![], vec![model("x", "Local", "http://127.0.0.1")]),
        Err(ConfigError::UnknownProvider("x".into()))
    );
}

#[test]
fn live_model_needs_a_digest() {
    let mut m = model("l", "local", "http://127.0.0.1:1");
    m.approved_for_live = true;
    assert_eq!(check(vec![], vec![m]), Err(ConfigError::LiveModelWithoutDigest("l".into())));
}

#[test]
fn priced_model_needs_a_cost_basis() {
    let mut m = model("l", "local", "http://127.0.0.1:1");
    m.output_cost_per_million = Some(1.5f64.to_bits());
    assert_eq!(check(vec![], vec![m]), Err(ConfigError::PriceWithoutCostBasis("l".into())));
}

#[test]
fn tasks_are_checked_before_models() {
    assert_eq!(
        check(vec![task("")], vec![model("x", "other", "")]),
        Err(ConfigError::InvalidTaskIds)
    );
    assert_eq!(
        check(vec![task("T1")], vec![model("a", "other", ""), model("b", "hosted", "http://x")]),
        Err(ConfigError::UnknownProvider("a".into()))
    );
}

#[test]
fn loopback_host_must_end_at_a_port_or_path() {
    for url in [
        "http://localhost.evil.example/v1",
        "http://127.0.0.1.nip.io:80",
        "http://localhostx",
        "http://localhost:80@evil.example/v1",
        "http://localhost:@x",
        "http://localhost:/v1",
        "http://[::1]:8a/",
    ] {
        assert_eq!(
            check(vec![], vec![model("l", "local", url)]),
            Err(ConfigError::LocalEndpointNotLoopback("l".into()))
        );
    }
    for url in ["http://localhost", "http://localhost/v1", "http://127.0.0.1:8080/v1", "http://[::1]/", "http://localhost:11434"] {
        assert_eq!(check(vec![], vec![model("l", "local", url)]), Ok(()));
    }
}

#[test]
fn refusals_are_explained() {
    assert_eq!(ConfigError::InvalidTaskIds.message(), "Benchmark task IDs must be non-empty and unique");
    assert_eq!(
        ConfigError::LocalEndpointNotLoopback("l".into()).message(),
        "Local model l must use a loopback endpoint in this POC"
    );
    assert_eq!(ConfigError::MissingPromptVersion("T1".into()).message(), "Task T1 has no prompt version");
}
