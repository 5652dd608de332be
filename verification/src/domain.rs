//! Benchmark tasks, model routes, run records and the quality gate.

use vstd::prelude::*;

use crate::json::JsonValue;

verus! {

/// The versioned pack of benchmark tasks.
#[derive(Debug)]
pub struct BenchmarkCatalog {
    pub version: String,
    pub tasks: Vec<BenchmarkTask>,
}

#[derive(Debug)]
pub struct BenchmarkTask {
    pub id: String,
    pub prompt_version: String,
    pub department: String,
    pub team: String,
    pub business_value: String,
    pub process: String,
    pub task_class: String,
    pub data_classification: DataClassification,
    pub prompt: String,
    pub grader: GraderSpec,
    pub quality_gate: QualityGate,
}

#[derive(Clone, Copy, Debug, PartialEq, Eq, Structural)]
pub enum DataClassification {
    Public,
    Internal,
    Confidential,
    Restricted,
}

/// True for the classes whose model output is never shown in a preview.
pub open spec fn is_sensitive(class: DataClassification) -> bool {
    class == DataClassification::Confidential || class == DataClassification::Restricted
}

/// How a task's answer is checked.
#[derive(Debug)]
#[allow(inconsistent_fields)]
pub enum GraderSpec {
    Exact { expected: String },
    ContainsAll { values: Vec<String> },
    Regex { pattern: String },
    JsonFields { fields: Vec<String> },
    JsonEquals { expected: JsonValue },
    ExactLines { expected: Vec<String>, ignore_order: bool },
}

#[derive(Clone, Copy, Debug)]
pub struct QualityGate {
    pub deterministic_pass_required: bool,
    pub minimum_human_score: Option<u8>,
    pub maximum_latency_ms: Option<u64>,
}

/// The versioned registry of model routes.
#[derive(Debug)]
pub struct ModelCatalog {
    pub version: String,
    pub models: Vec<ModelConfig>,
}

/// A model route. The two token prices are held as the bit patterns of the
/// `f64` prices of the catalog (`f64::to_bits`); the library reads only
/// whether a price is set.
#[derive(Debug)]
pub struct ModelConfig {
    pub id: String,
    pub display_name: String,
    pub provider: String,
    pub model: String,
    pub base_url: String,
    pub api_key_env: Option<String>,
    pub quantisation: String,
    pub runtime: String,
    pub hardware: String,
    pub input_cost_per_million: Option<u64>,
    pub output_cost_per_million: Option<u64>,
    /// How the price above was established. `None` means the cost is not yet
    /// configured; the price fields must then also be `None`.
    pub cost_basis: Option<String>,
    pub license: String,
    pub registry_source: String,
    pub artifact_digest: Option<String>,
    pub approved_for_live: bool,
    pub allowed_data: Vec<DataClassification>,
    pub enabled: bool,
}

#[derive(Debug)]
pub struct StartRunRequest {
    pub task_ids: Vec<String>,
    pub model_ids: Vec<String>,
    pub demo: bool,
    /// How many times to run each task and model pair. Repeating a stochastic
    /// case exposes variance; the worst result should decide eligibility.
    /// Defaults to one and is capped at five.
    pub repetitions: Option<u32>,
}

/// The least and the most repetitions of one task and model pair.
pub const MIN_REPETITIONS: u32 = 1;

pub const MAX_REPETITIONS: u32 = 5;

/// `repetitions`, one when absent, clamped to the range from one to five.
pub open spec fn clamped_repetitions(repetitions: Option<u32>) -> u32 {
    let r = match repetitions {
        Some(r) => r,
        None => 1,
    };
    if r < MIN_REPETITIONS {
        MIN_REPETITIONS
    } else if r > MAX_REPETITIONS {
        MAX_REPETITIONS
    } else {
        r
    }
}

impl StartRunRequest {
    pub fn repetition_count(&self) -> (n: u32)
        ensures
            n == clamped_repetitions(self.repetitions),
            MIN_REPETITIONS <= n <= MAX_REPETITIONS,
    {
        let r = match self.repetitions {
            Some(r) => r,
            None => 1,
        };
        if r < MIN_REPETITIONS {
            MIN_REPETITIONS
        } else if r > MAX_REPETITIONS {
            MAX_REPETITIONS
        } else {
            r
        }
    }
}

/// One model attempt at one task, with its evidence. The estimated cost is
/// held as the bit pattern of its `f64` value (`f64::to_bits`).
#[derive(Debug)]
pub struct RunResult {
    pub run_id: String,
    pub evaluation_id: String,
    pub created_at: String,
    pub execution_mode: ExecutionMode,
    pub execution_status: ExecutionStatus,
    pub benchmark_version: String,
    pub model_catalog_version: String,
    pub task_id: String,
    pub prompt_version: String,
    pub department: String,
    pub team: String,
    pub business_value: String,
    pub process: String,
    pub task_class: String,
    pub model_id: String,
    pub provider_model_id: String,
    pub quantisation: String,
    pub runtime: String,
    pub hardware: String,
    pub license: String,
    pub registry_source: String,
    pub artifact_digest: Option<String>,
    pub deterministic_pass: bool,
    pub grader_detail: String,
    pub quality_gate: QualityGate,
    pub gate_status: GateStatus,
    pub human_quality_score: Option<u8>,
    pub reviewer: Option<String>,
    pub reviewed_at: Option<String>,
    pub latency_ms: Option<u64>,
    pub tokens_in: Option<u64>,
    pub tokens_out: Option<u64>,
    pub estimated_cost_per_1000_tasks: Option<u64>,
    pub cost_basis: Option<String>,
    /// One-based repetition index within the evaluation, for its task and model.
    pub repetition: u32,
    /// True when this model is the recorded champion for the task class.
    pub is_champion: bool,
    /// True when a challenger failed a case that the champion passed in the
    /// same evaluation. A regression blocks promotion regardless of cost.
    pub regressed_vs_champion: bool,
    pub data_classification: DataClassification,
    pub sovereignty_note: String,
    pub response_preview: Option<String>,
}

/// The repetition index that a stored record without one is read with.
pub fn one() -> (n: u32)
    ensures
        n == 1,
{
    1
}

#[derive(Debug)]
pub struct ReviewRequest {
    pub score: u8,
    pub reviewer: String,
}

#[derive(Clone, Copy, Debug, PartialEq, Eq, Structural)]
pub enum ExecutionMode {
    Demo,
    Live,
    LegacyUnknown,
}

#[derive(Clone, Copy, Debug, PartialEq, Eq, Structural)]
pub enum ExecutionStatus {
    Completed,
    ProviderError,
}

#[derive(Clone, Copy, Debug, PartialEq, Eq, Structural)]
pub enum GateStatus {
    Eligible,
    DemoOnly,
    PendingHumanReview,
    Rejected,
}

impl Default for ExecutionMode {
    fn default() -> (m: Self)
        ensures
            m == ExecutionMode::LegacyUnknown,
    {
        ExecutionMode::LegacyUnknown
    }
}

impl Default for ExecutionStatus {
    fn default() -> (s: Self)
        ensures
            s == ExecutionStatus::Completed,
    {
        ExecutionStatus::Completed
    }
}

impl Default for GateStatus {
    fn default() -> (s: Self)
        ensures
            s == GateStatus::PendingHumanReview,
    {
        GateStatus::PendingHumanReview
    }
}

impl Default for QualityGate {
    fn default() -> (g: Self)
        ensures
            g.deterministic_pass_required,
            g.minimum_human_score is None,
            g.maximum_latency_ms is None,
    {
        QualityGate { deterministic_pass_required: true, minimum_human_score: None, maximum_latency_ms: None }
    }
}

/// The status a result reaches once every gate is met: a demo run only ever
/// reaches `DemoOnly`.
pub open spec fn passing_status(mode: ExecutionMode) -> GateStatus {
    if mode == ExecutionMode::Demo {
        GateStatus::DemoOnly
    } else {
        GateStatus::Eligible
    }
}

/// The latency limit of a quality gate is exceeded, or no latency was measured
/// where a limit applies.
pub open spec fn latency_fails(gate: QualityGate, latency_ms: Option<u64>) -> bool {
    match gate.maximum_latency_ms {
        Some(limit) => match latency_ms {
            None => true,
            Some(latency) => latency > limit,
        },
        None => false,
    }
}

/// The decision of the quality gate, in the order: execution, deterministic
/// grader, latency, human score.
pub open spec fn gate_outcome(
    gate: QualityGate,
    mode: ExecutionMode,
    status: ExecutionStatus,
    deterministic_pass: bool,
    latency_ms: Option<u64>,
    human_score: Option<u8>,
) -> GateStatus {
    if status != ExecutionStatus::Completed {
        GateStatus::Rejected
    } else if gate.deterministic_pass_required && !deterministic_pass {
        GateStatus::Rejected
    } else if latency_fails(gate, latency_ms) {
        GateStatus::Rejected
    } else {
        match gate.minimum_human_score {
            Some(minimum) => match human_score {
                Some(score) => if score >= minimum {
                    passing_status(mode)
                } else {
                    GateStatus::Rejected
                },
                None => GateStatus::PendingHumanReview,
            },
            None => passing_status(mode),
        }
    }
}

pub fn evaluate_gate(
    gate: &QualityGate,
    execution_mode: &ExecutionMode,
    execution_status: &ExecutionStatus,
    deterministic_pass: bool,
    latency_ms: Option<u64>,
    human_score: Option<u8>,
) -> (s: GateStatus)
    ensures
        s == gate_outcome(*gate, *execution_mode, *execution_status, deterministic_pass, latency_ms, human_score),
{
    if *execution_status != ExecutionStatus::Completed {
        return GateStatus::Rejected;
    }
    if gate.deterministic_pass_required && !deterministic_pass {
        return GateStatus::Rejected;
    }
    let latency_failed = match gate.maximum_latency_ms {
        Some(limit) => match latency_ms {
            None => true,
            Some(latency) => latency > limit,
        },
        None => false,
    };
    if latency_failed {
        return GateStatus::Rejected;
    }
    let passing = if *execution_mode == ExecutionMode::Demo {
        GateStatus::DemoOnly
    } else {
        GateStatus::Eligible
    };
    match gate.minimum_human_score {
        Some(minimum) => match human_score {
            Some(score) => if score >= minimum {
                passing
            } else {
                GateStatus::Rejected
            },
            None => GateStatus::PendingHumanReview,
        },
        None => passing,
    }
}

/// A demo run never becomes eligible, whatever its evidence.
pub proof fn law_demo_never_eligible(
    gate: QualityGate,
    status: ExecutionStatus,
    deterministic_pass: bool,
    latency_ms: Option<u64>,
    human_score: Option<u8>,
)
    ensures
        gate_outcome(gate, ExecutionMode::Demo, status, deterministic_pass, latency_ms, human_score)
            != GateStatus::Eligible,
{
}

/// A run whose provider call failed is rejected.
pub proof fn law_provider_error_is_rejected(
    gate: QualityGate,
    mode: ExecutionMode,
    deterministic_pass: bool,
    latency_ms: Option<u64>,
    human_score: Option<u8>,
)
    ensures
        gate_outcome(gate, mode, ExecutionStatus::ProviderError, deterministic_pass, latency_ms, human_score)
            == GateStatus::Rejected,
{
}

/// When a quality gate does not require the deterministic grader, its
/// verdict changes nothing.
pub proof fn law_unrequired_grader_is_ignored(
    gate: QualityGate,
    mode: ExecutionMode,
    status: ExecutionStatus,
    latency_ms: Option<u64>,
    human_score: Option<u8>,
)
    requires
        !gate.deterministic_pass_required,
    ensures
        gate_outcome(gate, mode, status, true, latency_ms, human_score) == gate_outcome(
            gate,
            mode,
            status,
            false,
            latency_ms,
            human_score,
        ),
{
}

/// A completed live run that passes the deterministic grader where that is
/// required, meets the latency limit where there is one, and has a human
/// score at least the minimum where one is required, is eligible; a demo run
/// in the same case is demo only.
pub proof fn law_meeting_every_gate_passes(
    gate: QualityGate,
    mode: ExecutionMode,
    deterministic_pass: bool,
    latency_ms: Option<u64>,
    human_score: Option<u8>,
)
    requires
        deterministic_pass || !gate.deterministic_pass_required,
        gate.maximum_latency_ms matches Some(limit) ==> (latency_ms matches Some(l) && l <= limit),
        gate.minimum_human_score matches Some(minimum) ==> (human_score matches Some(score) && score >= minimum),
    ensures
        mode == ExecutionMode::Demo ==> gate_outcome(
            gate,
            mode,
            ExecutionStatus::Completed,
            deterministic_pass,
            latency_ms,
            human_score,
        ) == GateStatus::DemoOnly,
        mode != ExecutionMode::Demo ==> gate_outcome(
            gate,
            mode,
            ExecutionStatus::Completed,
            deterministic_pass,
            latency_ms,
            human_score,
        ) == GateStatus::Eligible,
{
}

/// A latency failure cannot be overridden by any human score.
pub proof fn law_latency_failure_is_final(
    gate: QualityGate,
    mode: ExecutionMode,
    status: ExecutionStatus,
    deterministic_pass: bool,
    latency_ms: Option<u64>,
    human_score: Option<u8>,
)
    requires
        latency_fails(gate, latency_ms),
    ensures
        gate_outcome(gate, mode, status, deterministic_pass, latency_ms, human_score) == GateStatus::Rejected,
{
}

/// A result is eligible only when it is a completed non-demo run that meets
/// every gate: the deterministic grader where required, the latency limit, and
/// an identified human score at least the minimum where one is required.
pub proof fn law_eligible_meets_every_gate(
    gate: QualityGate,
    mode: ExecutionMode,
    status: ExecutionStatus,
    deterministic_pass: bool,
    latency_ms: Option<u64>,
    human_score: Option<u8>,
)
    requires
        gate_outcome(gate, mode, status, deterministic_pass, latency_ms, human_score) == GateStatus::Eligible,
    ensures
        mode != ExecutionMode::Demo,
        status == ExecutionStatus::Completed,
        gate.deterministic_pass_required ==> deterministic_pass,
        !latency_fails(gate, latency_ms),
        gate.minimum_human_score matches Some(minimum) ==> (human_score matches Some(score)
            && score >= minimum),
{
}

/// Where a human score is required, a run that meets the other gates waits
/// for review until it is scored.
pub proof fn law_human_review_required_before_eligibility(
    gate: QualityGate,
    mode: ExecutionMode,
    deterministic_pass: bool,
    latency_ms: Option<u64>,
)
    requires
        gate.minimum_human_score is Some,
        !gate.deterministic_pass_required || deterministic_pass,
        !latency_fails(gate, latency_ms),
    ensures
        gate_outcome(gate, mode, ExecutionStatus::Completed, deterministic_pass, latency_ms, None)
            == GateStatus::PendingHumanReview,
{
}

/// A higher human score never makes the outcome worse: what passes with one
/// score passes with any higher score.
pub proof fn law_higher_score_keeps_a_pass(
    gate: QualityGate,
    mode: ExecutionMode,
    status: ExecutionStatus,
    deterministic_pass: bool,
    latency_ms: Option<u64>,
    score: u8,
    higher: u8,
)
    requires
        score <= higher,
        gate_outcome(gate, mode, status, deterministic_pass, latency_ms, Some(score)) == passing_status(mode),
    ensures
        gate_outcome(gate, mode, status, deterministic_pass, latency_ms, Some(higher)) == passing_status(mode),
{
}

/// The repetition count always lies between one and five.
pub proof fn law_repetitions_are_bounded(repetitions: Option<u32>)
    ensures
        MIN_REPETITIONS <= clamped_repetitions(repetitions) <= MAX_REPETITIONS,
        repetitions is None ==> clamped_repetitions(repetitions) == 1,
{
}

} // verus!
