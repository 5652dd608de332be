use tessera_model_gate::approvals::{ApprovalEntry, ApprovalError, ApprovalLedger};
use tessera_model_gate::domain::{DataClassification, ModelCatalog, ModelConfig};

fn model(approved: bool, digest: Option<&str>) -> ModelConfig {
    ModelConfig {
        id: "m1".into(),
        display_name: "M1".into(),
        provider: "local".into(),
        model: "m1".into(),
        base_url: "http://127.0.0.1:1/v1".into(),
        api_key_env: None,
        quantisation: "Q8".into(),
        runtime: "llama.cpp".into(),
        hardware: "workstation".into(),
        input_cost_per_million: None,
        output_cost_per_million: None,
        cost_basis: None,
        license: "Apache-2.0".into(),
        registry_source: "hf".into(),
        artifact_digest: digest.map(str::to_owned),
        approved_for_live: approved,
        allowed_data: vec![DataClassification::Internal],
        enabled: true,
    }
}

fn ledger(entry: Option<ApprovalEntry>) -> ApprovalLedger {
    ApprovalLedger::from_entries(entry.into_iter().collect()).unwrap()
}

fn entry(digest: &str) -> ApprovalEntry {
    ApprovalEntry {
        model_id: "m1".into(),
        artifact_digest: digest.into(),
        approver: "Risk Owner".into(),
        approved_at: "2026-07-22T10:00:00Z".into(),
    }
}

#[test]
fn live_model_without_approval_is_rejected() {
    let models = ModelCatalog { version: "v".into(), models: vec![model(true, Some("sha256:a"))] };
    assert!(ledger(None).verify(&models).is_err());
}

#[test]
fn digest_mismatch_is_rejected() {
    let models = ModelCatalog { version: "v".into(), models: vec![model(true, Some("sha256:a"))] };
    assert!(ledger(Some(entry("sha256:b"))).verify(&models).is_err());
}

#[test]
fn matching_approval_passes() {
    let models = ModelCatalog { version: "v".into(), models: vec![model(true, Some("sha256:a"))] };
    assert!(ledger(Some(entry("sha256:a"))).verify(&models).is_ok());
}

#[test]
fn unapproved_model_needs_no_record() {
    let models = ModelCatalog { version: "v".into(), models: vec![model(false, None)] };
    assert!(ledger(None).verify(&models).is_ok());
}

#[test]
fn each_verification_error_names_the_model() {
    let undeclared = ModelCatalog { version: "v".into(), models: vec![model(true, None)] };
    assert_eq!(ledger(Some(entry("sha256:a"))).verify(&undeclared), Err(ApprovalError::UndeclaredDigest("m1".into())));
    let live = ModelCatalog { version: "v".into(), models: vec![model(true, Some("sha256:a"))] };
    assert_eq!(ledger(None).verify(&live), Err(ApprovalError::NotCounterSigned("m1".into())));
    assert_eq!(ledger(Some(entry("sha256:b"))).verify(&live), Err(ApprovalError::DigestMismatch("m1".into())));
}

#[test]
fn ledger_records_must_be_complete_and_unique() {
    let mut no_approver = entry("sha256:a");
    no_approver.approver = "  ".into();
    assert_eq!(
        ApprovalLedger::from_entries(vec![no_approver]).err(),
        Some(ApprovalError::MissingApprover("m1".into()))
    );
    let mut no_time = entry("sha256:a");
    no_time.approved_at = "".into();
    assert_eq!(ApprovalLedger::from_entries(vec![no_time]).err(), Some(ApprovalError::MissingApprover("m1".into())));
    assert_eq!(
        ApprovalLedger::from_entries(vec![entry(" \t")]).err(),
        Some(ApprovalError::MissingDigest("m1".into()))
    );
    assert_eq!(
        ApprovalLedger::from_entries(vec![entry("sha256:a"), entry("sha256:b")]).err(),
        Some(ApprovalError::DuplicateRecord("m1".into()))
    );
}

#[test]
fn first_failing_model_is_reported() {
    let mut second = model(true, Some("sha256:z"));
    second.id = "m2".into();
    let models = ModelCatalog { version: "v".into(), models: vec![model(false, None), second, model(true, None)] };
    assert_eq!(ledger(Some(entry("sha256:a"))).verify(&models), Err(ApprovalError::NotCounterSigned("m2".into())));
}

#[test]
fn approval_refusals_are_explained() {
    assert_eq!(ApprovalError::DuplicateRecord("m1".into()).message(), "Duplicate approval record for model m1");
    assert_eq!(
        ApprovalError::NotCounterSigned("m1".into()).message(),
        "Model m1 is marked approved_for_live but has no signed approval in the approvals ledger"
    );
}
