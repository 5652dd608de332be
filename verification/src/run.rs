//! Starting an evaluation: the checks on a request before any model call or
//! ledger write, the evidence record of each attempt, and the flags that
//! compare challengers with the champion.

use vstd::prelude::*;

use crate::approvals::clone_string;
use crate::champions::{champion_of, ChampionRegistry};
use crate::domain::{
    gate_outcome, is_sensitive, BenchmarkCatalog, BenchmarkTask, DataClassification, ExecutionMode,
    ExecutionStatus, GateStatus, ModelCatalog, ModelConfig, RunResult, StartRunRequest, evaluate_gate,
};
use crate::grader::{grade, grade_error_text, grading, GradeError};
use crate::json::JsonValue;
use crate::lines::views;
use crate::provider::ModelAnswer;
use crate::text::{framed, prefixed, str_eq};

verus! {

/// Why a run request was refused before any model call.
#[derive(Debug, PartialEq, Eq)]
pub enum RunRequestError {
    /// Select at least one task and one model.
    EmptySelection,
    /// The request names an ID twice; the label says whether a task or a
    /// model ID.
    DuplicateIds(String),
    UnknownTask(String),
    /// The model is unknown or disabled.
    UnknownModel(String),
    /// The model is not approved for the data class of the task.
    DataClassNotAllowed { model_id: String, task_id: String },
    /// The model is not approved for live runs.
    NotApprovedForLive(String),
}

/// A refusal as the contracts speak of it, each name by its characters.
pub enum RequestProblem {
    EmptySelection,
    DuplicateIds(Seq<char>),
    UnknownTask(Seq<char>),
    UnknownModel(Seq<char>),
    DataClassNotAllowed { model_id: Seq<char>, task_id: Seq<char> },
    NotApprovedForLive(Seq<char>),
}

impl View for RunRequestError {
    type V = RequestProblem;

    open spec fn view(&self) -> RequestProblem {
        match self {
            RunRequestError::EmptySelection => RequestProblem::EmptySelection,
            RunRequestError::DuplicateIds(l) => RequestProblem::DuplicateIds(l@),
            RunRequestError::UnknownTask(t) => RequestProblem::UnknownTask(t@),
            RunRequestError::UnknownModel(m) => RequestProblem::UnknownModel(m@),
            RunRequestError::DataClassNotAllowed { model_id, task_id } => RequestProblem::DataClassNotAllowed {
                model_id: model_id@,
                task_id: task_id@,
            },
            RunRequestError::NotApprovedForLive(m) => RequestProblem::NotApprovedForLive(m@),
        }
    }
}

/// The text that explains a refused run request.
pub open spec fn request_problem_text(p: RequestProblem) -> Seq<char> {
    match p {
        RequestProblem::EmptySelection => "Select at least one task and one model"@,
        RequestProblem::DuplicateIds(label) => "Duplicate "@ + label + " IDs are not allowed"@,
        RequestProblem::UnknownTask(id) => "Unknown task: "@ + id,
        RequestProblem::UnknownModel(id) => "Unknown or disabled model: "@ + id,
        RequestProblem::DataClassNotAllowed { model_id, task_id } => "Model "@ + model_id
            + " is not approved for the data class used by task "@ + task_id,
        RequestProblem::NotApprovedForLive(id) => "Model "@ + id + " is not approved for live runs"@,
    }
}

impl RunRequestError {
    /// The explanation of the refusal.
    pub fn message(&self) -> (s: String)
        ensures
            s@ == request_problem_text(self@),
    {
        match self {
            RunRequestError::EmptySelection => "Select at least one task and one model".to_owned(),
            RunRequestError::DuplicateIds(label) => framed("Duplicate ", label.as_str(), " IDs are not allowed"),
            RunRequestError::UnknownTask(id) => prefixed("Unknown task: ", id.as_str()),
            RunRequestError::UnknownModel(id) => prefixed("Unknown or disabled model: ", id.as_str()),
            RunRequestError::DataClassNotAllowed { model_id, task_id } => {
                let mut s = framed("Model ", model_id.as_str(), " is not approved for the data class used by task ");
                s.append(task_id.as_str());
                s
            },
            RunRequestError::NotApprovedForLive(id) => framed("Model ", id.as_str(), " is not approved for live runs"),
        }
    }
}

/// Some string occurs twice in the list.
pub open spec fn has_duplicate(values: Seq<Seq<char>>) -> bool {
    exists|i: int, j: int| 0 <= i < j < values.len() && #[trigger] values[i] == #[trigger] values[j]
}

/// Refuse a list of IDs that names one ID twice.
pub fn reject_duplicates(label: &str, values: &[String]) -> (r: Result<(), RunRequestError>)
    ensures
        r is Ok <==> !has_duplicate(views(values@)),
        r matches Err(e) ==> e@ == RequestProblem::DuplicateIds(label@),
{
    let ghost vs = views(values@);
    let mut j: usize = 0;
    while j < values.len()
        invariant
            vs == views(values@),
            j <= values@.len(),
            forall|a: int, b: int| 0 <= a < b < j ==> #[trigger] vs[a] != #[trigger] vs[b],
        decreases values@.len() - j,
    {
        let mut i: usize = 0;
        while i < j
            invariant
                vs == views(values@),
                i <= j < values@.len(),
                forall|a: int| 0 <= a < i ==> #[trigger] vs[a] != vs[j as int],
            decreases j - i,
        {
            if values[i] == values[j] {
                assert(vs[i as int] == vs[j as int]);
                return Err(RunRequestError::DuplicateIds(label.to_owned()));
            }
            i = i + 1;
        }
        j = j + 1;
    }
    Ok(())
}


/// The index of the first task with the given ID.
#[verifier::opaque]
pub open spec fn task_position(tasks: Seq<BenchmarkTask>, id: Seq<char>) -> Option<int> {
    if exists|i: int| 0 <= i < tasks.len() && (#[trigger] tasks[i]).id@ == id {
        Some(
            choose|i: int|
                0 <= i < tasks.len() && (#[trigger] tasks[i]).id@ == id && forall|k: int|
                    0 <= k < i ==> (#[trigger] tasks[k]).id@ != id,
        )
    } else {
        None
    }
}

/// The model is enabled and has the given ID.
pub open spec fn is_enabled_model(m: ModelConfig, id: Seq<char>) -> bool {
    m.id@ == id && m.enabled
}

/// The index of the first enabled model with the given ID.
#[verifier::opaque]
pub open spec fn model_position(models: Seq<ModelConfig>, id: Seq<char>) -> Option<int> {
    if exists|i: int| 0 <= i < models.len() && is_enabled_model(#[trigger] models[i], id) {
        Some(
            choose|i: int|
                0 <= i < models.len() && is_enabled_model(#[trigger] models[i], id) && forall|k: int|
                    0 <= k < i ==> !is_enabled_model(#[trigger] models[k], id),
        )
    } else {
        None
    }
}

/// The problem with running model `j` of the request on task `i`, whose
/// catalog entry is `task`.
pub open spec fn pair_error(
    models: Seq<ModelConfig>,
    request: StartRunRequest,
    task: BenchmarkTask,
    j: int,
) -> Option<RequestProblem> {
    let model_id = request.model_ids@[j]@;
    match model_position(models, model_id) {
        None => Some(RequestProblem::UnknownModel(model_id)),
        Some(mi) => {
            let m = models[mi];
            if !m.allowed_data@.contains(task.data_classification) {
                Some(RequestProblem::DataClassNotAllowed { model_id: model_id, task_id: task.id@ })
            } else if !request.demo && !m.approved_for_live {
                Some(RequestProblem::NotApprovedForLive(model_id))
            } else {
                None
            }
        },
    }
}

/// The first problem met when the models of the request are checked, from
/// model `j` on, against one task.
pub open spec fn models_error(
    models: Seq<ModelConfig>,
    request: StartRunRequest,
    task: BenchmarkTask,
    j: int,
) -> Option<RequestProblem>
    decreases request.model_ids@.len() - j,
{
    if j < 0 || j >= request.model_ids@.len() {
        None
    } else {
        match pair_error(models, request, task, j) {
            Some(e) => Some(e),
            None => models_error(models, request, task, j + 1),
        }
    }
}

/// The first problem met when the tasks of the request are checked in order
/// from task `i` on, each task before its models.
pub open spec fn scan_error(
    tasks: Seq<BenchmarkTask>,
    models: Seq<ModelConfig>,
    request: StartRunRequest,
    i: int,
) -> Option<RequestProblem>
    decreases request.task_ids@.len() - i,
{
    if i < 0 || i >= request.task_ids@.len() {
        None
    } else {
        match task_position(tasks, request.task_ids@[i]@) {
            None => Some(RequestProblem::UnknownTask(request.task_ids@[i]@)),
            Some(ti) => match models_error(models, request, tasks[ti], 0) {
                Some(e) => Some(e),
                None => scan_error(tasks, models, request, i + 1),
            },
        }
    }
}

/// Why a run request is refused, if it is: checked in full before the first
/// model call or ledger write.
pub open spec fn request_error(
    benchmarks: BenchmarkCatalog,
    models: ModelCatalog,
    request: StartRunRequest,
) -> Option<RequestProblem> {
    if request.task_ids@.len() == 0 || request.model_ids@.len() == 0 {
        Some(RequestProblem::EmptySelection)
    } else if has_duplicate(views(request.task_ids@)) {
        Some(RequestProblem::DuplicateIds("task"@))
    } else if has_duplicate(views(request.model_ids@)) {
        Some(RequestProblem::DuplicateIds("model"@))
    } else {
        scan_error(benchmarks.tasks@, models.models@, request, 0)
    }
}


/// The catalog entries that a valid request runs: for each requested task,
/// in order, the index of its task, and for each requested model the index of
/// its model route.
#[derive(Debug)]
pub struct RunPlan {
    pub task_indices: Vec<usize>,
    pub model_indices: Vec<usize>,
}

/// One attempt of a run: the catalog entries of its task and model, the
/// model's position in the request, and the one-based repetition.
#[derive(Clone, Copy, Debug, PartialEq, Eq, Structural)]
pub struct AttemptSlot {
    pub task_index: usize,
    pub model_index: usize,
    pub model_order: usize,
    pub repetition: u32,
}

/// Where the attempt at task `a`, model `b` and repetition `c` (all
/// zero-based) stands in a run of `models` models and `reps` repetitions:
/// tasks first, then models, then repetitions.
pub open spec fn slot_index(models: int, reps: int, a: int, b: int, c: int) -> int {
    (a * models + b) * reps + c
}

/// The attempt at task `a`, model `b` and repetition `c` of a plan.
pub open spec fn slot_of(plan: RunPlan, a: int, b: int, c: int) -> AttemptSlot {
    AttemptSlot {
        task_index: plan.task_indices@[a],
        model_index: plan.model_indices@[b],
        model_order: b as usize,
        repetition: (c + 1) as u32,
    }
}

/// An attempt that comes earlier in the order stands at an earlier place.
proof fn lemma_slot_order(models: int, reps: int, a: int, b: int, c: int, a2: int, b2: int, c2: int)
    by (nonlinear_arith)
    requires
        0 <= b < models,
        0 <= c < reps,
        0 <= b2 < models,
        0 <= c2 < reps,
        0 <= a,
        0 <= a2,
        a < a2 || (a == a2 && b < b2) || (a == a2 && b == b2 && c < c2),
    ensures
        0 <= slot_index(models, reps, a, b, c) < slot_index(models, reps, a2, b2, c2),
{
}

impl RunPlan {
    /// The attempts of the run, in order: for each task, each model, each
    /// repetition from one to `repetitions`.
    pub fn attempts(&self, repetitions: u32) -> (slots: Vec<AttemptSlot>)
        ensures
            slots@.len() == self.task_indices@.len() * self.model_indices@.len() * repetitions,
            forall|a: int, b: int, c: int|
                0 <= a < self.task_indices@.len() && 0 <= b < self.model_indices@.len() && 0 <= c < repetitions
                    ==> slots@[slot_index(self.model_indices@.len() as int, repetitions as int, a, b, c)]
                    == slot_of(*self, a, b, c),
    {
        let nt = self.task_indices.len();
        let nm = self.model_indices.len();
        let ghost m = nm as int;
        let ghost r = repetitions as int;
        let mut slots: Vec<AttemptSlot> = Vec::new();
        let mut a: usize = 0;
        while a < nt
            invariant
                nt == self.task_indices@.len(),
                nm == self.model_indices@.len(),
                m == nm,
                r == repetitions,
                a <= nt,
                slots@.len() == (a * m) * r,
                forall|a2: int, b2: int, c2: int|
                    0 <= a2 < a && 0 <= b2 < m && 0 <= c2 < r ==> slots@[slot_index(m, r, a2, b2, c2)] == slot_of(
                        *self,
                        a2,
                        b2,
                        c2,
                    ),
            decreases nt - a,
        {
            let mut b: usize = 0;
            while b < nm
                invariant
                    nt == self.task_indices@.len(),
                    nm == self.model_indices@.len(),
                    m == nm,
                    r == repetitions,
                    a < nt,
                    b <= nm,
                    slots@.len() == (a * m + b) * r,
                    forall|a2: int, b2: int, c2: int|
                        0 <= a2 && 0 <= b2 < m && 0 <= c2 < r && (a2 < a || (a2 == a && b2 < b)) ==> slots@[slot_index(
                            m,
                            r,
                            a2,
                            b2,
                            c2,
                        )] == slot_of(*self, a2, b2, c2),
                decreases nm - b,
            {
                let mut c: u32 = 0;
                while c < repetitions
                    invariant
                        nt == self.task_indices@.len(),
                        nm == self.model_indices@.len(),
                        m == nm,
                        r == repetitions,
                        a < nt,
                        b < nm,
                        c <= repetitions,
                        slots@.len() == (a * m + b) * r + c,
                        forall|a2: int, b2: int, c2: int|
                            0 <= a2 && 0 <= b2 < m && 0 <= c2 < r && (a2 < a || (a2 == a && b2 < b) || (a2 == a && b2
                                == b && c2 < c)) ==> slots@[slot_index(m, r, a2, b2, c2)] == slot_of(
                                *self,
                                a2,
                                b2,
                                c2,
                            ),
                    decreases repetitions - c,
                {
                    let slot = AttemptSlot {
                        task_index: self.task_indices[a],
                        model_index: self.model_indices[b],
                        model_order: b,
                        repetition: c + 1,
                    };
                    let ghost before = slots@;
                    slots.push(slot);
                    proof {
                        assert(slot == slot_of(*self, a as int, b as int, c as int));
                        assert(slot_index(m, r, a as int, b as int, c as int) == before.len());
                        assert forall|a2: int, b2: int, c2: int|
                            0 <= a2 && 0 <= b2 < m && 0 <= c2 < r && (a2 < a || (a2 == a && b2 < b) || (a2 == a && b2
                                == b && c2 < c + 1)) implies slots@[slot_index(m, r, a2, b2, c2)] == slot_of(
                            *self,
                            a2,
                            b2,
                            c2,
                        ) by {
                            if a2 == a && b2 == b && c2 == c {
                            } else {
                                lemma_slot_order(m, r, a2, b2, c2, a as int, b as int, c as int);
                            }
                        }
                    }
                    c = c + 1;
                }
                proof {
                    assert((a * m + b) * r + r == (a * m + (b + 1)) * r) by (nonlinear_arith);
                }
                b = b + 1;
            }
            proof {
                assert((a * m + m) * r == ((a + 1) * m) * r) by (nonlinear_arith);
            }
            a = a + 1;
        }
        slots
    }
}

fn find_task(tasks: &Vec<BenchmarkTask>, id: &str) -> (r: Option<usize>)
    ensures
        task_position(tasks@, id@) is None <==> r is None,
        r matches Some(p) ==> task_position(tasks@, id@) == Some(p as int) && p < tasks@.len(),
{
    let mut i: usize = 0;
    while i < tasks.len()
        invariant
            i <= tasks@.len(),
            forall|k: int| 0 <= k < i ==> (#[trigger] tasks@[k]).id@ != id@,
        decreases tasks@.len() - i,
    {
        if str_eq(tasks[i].id.as_str(), id) {
            proof {
                reveal(task_position);
                let s = tasks@;
                let w = choose|w: int|
                    0 <= w < s.len() && (#[trigger] s[w]).id@ == id@ && forall|k: int|
                        0 <= k < w ==> (#[trigger] s[k]).id@ != id@;
                if w < i {
                    assert(s[w].id@ != id@);
                }
                if w > i {
                    assert(s[i as int].id@ != id@);
                }
            }
            return Some(i);
        }
        i = i + 1;
    }
    proof {
        reveal(task_position);
    }
    None
}

fn find_model(models: &Vec<ModelConfig>, id: &str) -> (r: Option<usize>)
    ensures
        model_position(models@, id@) is None <==> r is None,
        r matches Some(p) ==> model_position(models@, id@) == Some(p as int) && p < models@.len(),
{
    let mut i: usize = 0;
    while i < models.len()
        invariant
            i <= models@.len(),
            forall|k: int| 0 <= k < i ==> !is_enabled_model(#[trigger] models@[k], id@),
        decreases models@.len() - i,
    {
        if models[i].enabled && str_eq(models[i].id.as_str(), id) {
            proof {
                reveal(model_position);
                let s = models@;
                assert(is_enabled_model(s[i as int], id@));
                let w = choose|w: int|
                    0 <= w < s.len() && is_enabled_model(#[trigger] s[w], id@) && forall|k: int|
                        0 <= k < w ==> !is_enabled_model(#[trigger] s[k], id@);
                if w < i {
                    assert(!is_enabled_model(s[w], id@));
                }
                if w > i {
                    assert(!is_enabled_model(s[i as int], id@));
                }
            }
            return Some(i);
        }
        i = i + 1;
    }
    proof {
        reveal(model_position);
    }
    None
}

fn class_allowed(allowed: &Vec<DataClassification>, class: DataClassification) -> (r: bool)
    ensures
        r == allowed@.contains(class),
{
    let mut i: usize = 0;
    while i < allowed.len()
        invariant
            i <= allowed@.len(),
            forall|k: int| 0 <= k < i ==> allowed@[k] != class,
        decreases allowed@.len() - i,
    {
        if allowed[i] == class {
            assert(allowed@[i as int] == class);
            return true;
        }
        i = i + 1;
    }
    false
}

/// Check every model of the request against one task, in order.
fn check_models(
    ms: &Vec<ModelConfig>,
    request: &StartRunRequest,
    task: &BenchmarkTask,
) -> (r: Result<Vec<usize>, RunRequestError>)
    ensures
        match models_error(ms@, *request, *task, 0) {
            Some(p) => (r matches Err(e) && e@ == p),
            None => (r matches Ok(v) && v@.len() == request.model_ids@.len() && forall|j: int|
                0 <= j < request.model_ids@.len() ==> model_position(ms@, request.model_ids@[j]@) == Some(
                    #[trigger] v@[j] as int,
                )),
        },
{
    let nm = request.model_ids.len();
    let ghost first = models_error(ms@, *request, *task, 0);
    let mut indices: Vec<usize> = Vec::new();
    let mut j: usize = 0;
    while j < nm
        invariant
            nm == request.model_ids@.len(),
            j <= nm,
            first == models_error(ms@, *request, *task, 0),
            first == models_error(ms@, *request, *task, j as int),
            indices@.len() == j,
            forall|k: int|
                0 <= k < j ==> model_position(ms@, request.model_ids@[k]@) == Some(#[trigger] indices@[k] as int),
        decreases nm - j,
    {
        let model_id = &request.model_ids[j];
        let mi = match find_model(ms, model_id.as_str()) {
            None => return Err(RunRequestError::UnknownModel(clone_string(model_id))),
            Some(mi) => mi,
        };
        let model = &ms[mi];
        assert(model_position(ms@, request.model_ids@[j as int]@) == Some(mi as int));
        if !class_allowed(&model.allowed_data, task.data_classification) {
            assert(pair_error(ms@, *request, *task, j as int) == Some(
                RequestProblem::DataClassNotAllowed { model_id: model_id@, task_id: task.id@ },
            ));
            return Err(
                RunRequestError::DataClassNotAllowed { model_id: clone_string(model_id), task_id: clone_string(&task.id) },
            );
        }
        if !request.demo && !model.approved_for_live {
            assert(pair_error(ms@, *request, *task, j as int) == Some(RequestProblem::NotApprovedForLive(model_id@)));
            return Err(RunRequestError::NotApprovedForLive(clone_string(model_id)));
        }
        assert(pair_error(ms@, *request, *task, j as int) is None);
        indices.push(mi);
        j = j + 1;
    }
    Ok(indices)
}

/// Check a run request in full before the first model call or ledger write:
/// a task and a model are selected, no ID is repeated, and for each task in
/// order every model in order is known and enabled, approved for the task's
/// data class, and approved for live runs unless the run is a demo. The first
/// problem found is reported; otherwise the catalog entries to run are.
pub fn validate_run_request(
    benchmarks: &BenchmarkCatalog,
    models: &ModelCatalog,
    request: &StartRunRequest,
) -> (r: Result<RunPlan, RunRequestError>)
    ensures
        match request_error(*benchmarks, *models, *request) {
            Some(p) => (r matches Err(e) && e@ == p),
            None => (r matches Ok(plan) && plan.task_indices@.len() == request.task_ids@.len()
                && plan.model_indices@.len() == request.model_ids@.len() && (forall|i: int|
                0 <= i < request.task_ids@.len() ==> task_position(benchmarks.tasks@, request.task_ids@[i]@)
                    == Some(#[trigger] plan.task_indices@[i] as int)) && (forall|j: int|
                0 <= j < request.model_ids@.len() ==> model_position(models.models@, request.model_ids@[j]@)
                    == Some(#[trigger] plan.model_indices@[j] as int))),
        },
{
    let nt = request.task_ids.len();
    let nm = request.model_ids.len();
    if nt == 0 || nm == 0 {
        return Err(RunRequestError::EmptySelection);
    }
    proof {
        reveal_strlit("task");
        reveal_strlit("model");
    }
    match reject_duplicates("task", request.task_ids.as_slice()) {
        Err(e) => return Err(e),
        Ok(()) => {},
    }
    match reject_duplicates("model", request.model_ids.as_slice()) {
        Err(e) => return Err(e),
        Ok(()) => {},
    }
    let tasks = &benchmarks.tasks;
    let ghost first = scan_error(tasks@, models.models@, *request, 0);
    assert(request_error(*benchmarks, *models, *request) == first);
    let mut task_indices: Vec<usize> = Vec::new();
    let mut model_indices: Vec<usize> = Vec::new();
    let mut i: usize = 0;
    while i < nt
        invariant
            nt == request.task_ids@.len(),
            nm == request.model_ids@.len(),
            *tasks == benchmarks.tasks,
            nm > 0,
            i <= nt,
            first == request_error(*benchmarks, *models, *request),
            first == scan_error(tasks@, models.models@, *request, i as int),
            task_indices@.len() == i,
            forall|k: int|
                0 <= k < i ==> task_position(tasks@, request.task_ids@[k]@) == Some(#[trigger] task_indices@[k] as int),
            i > 0 ==> model_indices@.len() == nm,
            forall|k: int|
                0 <= k < model_indices@.len() ==> model_position(models.models@, request.model_ids@[k]@) == Some(
                    #[trigger] model_indices@[k] as int,
                ),
        decreases nt - i,
    {
        let task_id = &request.task_ids[i];
        let ti = match find_task(tasks, task_id.as_str()) {
            None => return Err(RunRequestError::UnknownTask(clone_string(task_id))),
            Some(ti) => ti,
        };
        let found = check_models(&models.models, request, &tasks[ti]);
        match found {
            Err(e) => return Err(e),
            Ok(v) => {
                model_indices = v;
            },
        }
        task_indices.push(ti);
        i = i + 1;
    }
    Ok(RunPlan { task_indices, model_indices })
}


/// In `results`, the champion ran task `task_id` and passed every repetition
/// of it.
pub open spec fn champion_passed(results: Seq<RunResult>, task_id: Seq<char>) -> bool {
    &&& exists|i: int| 0 <= i < results.len() && (#[trigger] results[i]).is_champion && results[i].task_id@ == task_id
    &&& forall|i: int|
        0 <= i < results.len() && (#[trigger] results[i]).is_champion && results[i].task_id@ == task_id
            ==> results[i].deterministic_pass
}

/// Result `k` is a challenger's failure on a task that the champion passed.
pub open spec fn is_regression(results: Seq<RunResult>, k: int) -> bool {
    !results[k].is_champion && !results[k].deterministic_pass && champion_passed(results, results[k].task_id@)
}

/// `after` is `before` with only the regression flag possibly changed.
pub open spec fn same_but_flag(before: RunResult, after: RunResult) -> bool {
    after == (RunResult { regressed_vs_champion: after.regressed_vs_champion, ..before })
}

fn champion_passed_exec(results: &Vec<RunResult>, task_id: &String) -> (b: bool)
    ensures
        b == champion_passed(results@, task_id@),
{
    let mut seen = false;
    let mut i: usize = 0;
    while i < results.len()
        invariant
            i <= results@.len(),
            seen == exists|k: int| 0 <= k < i && (#[trigger] results@[k]).is_champion && results@[k].task_id@ == task_id@,
            forall|k: int|
                0 <= k < i && (#[trigger] results@[k]).is_champion && results@[k].task_id@ == task_id@
                    ==> results@[k].deterministic_pass,
        decreases results@.len() - i,
    {
        let r = &results[i];
        if r.is_champion && r.task_id == *task_id {
            if !r.deterministic_pass {
                return false;
            }
            seen = true;
        }
        i = i + 1;
    }
    seen
}

/// A challenger that fails a task the champion passed in the same evaluation
/// is a regression. The champion must pass every repetition of the task to
/// count. Flags are only ever raised.
pub fn flag_regressions(results: &mut Vec<RunResult>)
    ensures
        final(results)@.len() == old(results)@.len(),
        forall|k: int|
            0 <= k < old(results)@.len() ==> same_but_flag(old(results)@[k], #[trigger] final(results)@[k])
                && final(results)@[k].regressed_vs_champion == (old(results)@[k].regressed_vs_champion
                || is_regression(old(results)@, k)),
{
    let ghost before = results@;
    let n = results.len();
    let mut flags: Vec<bool> = Vec::new();
    let mut k: usize = 0;
    while k < n
        invariant
            n == results@.len(),
            results@ == before,
            k <= n,
            flags@.len() == k,
            forall|j: int| 0 <= j < k ==> #[trigger] flags@[j] == is_regression(before, j),
        decreases n - k,
    {
        let r = &results[k];
        let flag = !r.is_champion && !r.deterministic_pass && champion_passed_exec(results, &r.task_id);
        flags.push(flag);
        k = k + 1;
    }
    let mut k: usize = 0;
    while k < n
        invariant
            n == results@.len(),
            n == before.len(),
            k <= n,
            flags@.len() == n,
            forall|j: int| 0 <= j < n ==> #[trigger] flags@[j] == is_regression(before, j),
            forall|j: int|
                0 <= j < k ==> same_but_flag(before[j], #[trigger] results@[j]) && results@[j].regressed_vs_champion
                    == (before[j].regressed_vs_champion || is_regression(before, j)),
            forall|j: int| k <= j < n ==> #[trigger] results@[j] == before[j],
        decreases n - k,
    {
        if flags[k] {
            results[k].regressed_vs_champion = true;
        }
        k = k + 1;
    }
}


/// The evidence note of a route: a local route's location is declared, not
/// verified; a hosted route needs its region and contract confirmed.
pub const LOCAL_NOTE: &'static str = "Declared local route. Endpoint location is not independently verified.";

pub const HOSTED_NOTE: &'static str = "Hosted route. Confirm the provider region, contract, and data controls before use.";

/// The explanation recorded when the model call failed.
pub const PROVIDER_FAILURE_DETAIL: &'static str = "Model call failed. Inspect the service log.";

/// The most characters of an answer that a preview shows.
pub const PREVIEW_CHARS: usize = 240;

pub open spec fn sovereignty_note_for(provider: Seq<char>) -> Seq<char> {
    if provider == "local"@ {
        LOCAL_NOTE@
    } else {
        HOSTED_NOTE@
    }
}

/// What was learned from one model attempt, as the caller observed it.
pub struct Attempt {
    pub run_id: String,
    pub evaluation_id: String,
    pub created_at: String,
    /// One-based repetition index.
    pub repetition: u32,
    /// The answer, or `None` when the model call failed.
    pub answer: Option<ModelAnswer>,
    /// The answer read as JSON, `None` when it is not valid JSON.
    pub answer_json: Option<JsonValue>,
    /// The estimated cost per 1,000 tasks, as the bits of its `f64` value.
    pub estimated_cost_per_1000_tasks: Option<u64>,
}

/// The grader's verdict on an attempt and its explanation. A failed model
/// call fails, and so does an answer that cannot be graded.
pub open spec fn attempt_verdict(task: BenchmarkTask, attempt: Attempt) -> (bool, Seq<char>) {
    match attempt.answer {
        None => (false, PROVIDER_FAILURE_DETAIL@),
        Some(a) => match grading(task.grader, a.text@, attempt.answer_json) {
            Ok(v) => v,
            Err(e) => (false, "Grader failure: "@ + grade_error_text(e)),
        },
    }
}

/// The preview of an answer: its first 240 characters, never for a
/// confidential or restricted task.
pub open spec fn preview_of(class: DataClassification, answer: Option<ModelAnswer>) -> Option<Seq<char>> {
    if is_sensitive(class) {
        None
    } else {
        match answer {
            None => None,
            Some(a) => Some(
                a.text@.take(
                    if a.text@.len() < PREVIEW_CHARS {
                        a.text@.len() as int
                    } else {
                        PREVIEW_CHARS as int
                    },
                ),
            ),
        }
    }
}

/// The answer to a confidential or restricted task never reaches a preview.
pub proof fn law_sensitive_answers_have_no_preview(class: DataClassification, answer: Option<ModelAnswer>)
    requires
        is_sensitive(class),
    ensures
        preview_of(class, answer) is None,
{
}

/// The views of an optional string.
pub open spec fn opt_view(s: Option<String>) -> Option<Seq<char>> {
    match s {
        Some(x) => Some(x@),
        None => None,
    }
}

/// A copy of an optional string.
pub fn clone_optional(s: &Option<String>) -> (c: Option<String>)
    ensures
        c == *s,
{
    match s {
        Some(x) => Some(x.clone()),
        None => None,
    }
}

/// The evidence record of one attempt of `model` at `task`.
pub fn record_attempt(
    benchmarks: &BenchmarkCatalog,
    models: &ModelCatalog,
    champions: &ChampionRegistry,
    task: &BenchmarkTask,
    model: &ModelConfig,
    demo: bool,
    attempt: Attempt,
) -> (r: RunResult)
    ensures
        r.run_id == attempt.run_id,
        r.evaluation_id == attempt.evaluation_id,
        r.created_at == attempt.created_at,
        r.execution_mode == if demo {
            ExecutionMode::Demo
        } else {
            ExecutionMode::Live
        },
        r.execution_status == if attempt.answer is Some {
            ExecutionStatus::Completed
        } else {
            ExecutionStatus::ProviderError
        },
        r.benchmark_version == benchmarks.version,
        r.model_catalog_version == models.version,
        r.task_id == task.id,
        r.prompt_version == task.prompt_version,
        r.department == task.department,
        r.team == task.team,
        r.business_value == task.business_value,
        r.process == task.process,
        r.task_class == task.task_class,
        r.model_id == model.id,
        r.provider_model_id == model.model,
        r.quantisation == model.quantisation,
        r.runtime == model.runtime,
        r.hardware == model.hardware,
        r.license == model.license,
        r.registry_source == model.registry_source,
        r.artifact_digest == model.artifact_digest,
        (r.deterministic_pass, r.grader_detail@) == attempt_verdict(*task, attempt),
        r.quality_gate == task.quality_gate,
        r.gate_status == gate_outcome(
            task.quality_gate,
            r.execution_mode,
            r.execution_status,
            r.deterministic_pass,
            r.latency_ms,
            None,
        ),
        r.human_quality_score is None,
        r.reviewer is None,
        r.reviewed_at is None,
        r.latency_ms == match attempt.answer {
            Some(a) => Some(a.latency_ms),
            None => None,
        },
        r.tokens_in == match attempt.answer {
            Some(a) => a.tokens_in,
            None => None,
        },
        r.tokens_out == match attempt.answer {
            Some(a) => a.tokens_out,
            None => None,
        },
        r.estimated_cost_per_1000_tasks == attempt.estimated_cost_per_1000_tasks,
        r.cost_basis == model.cost_basis,
        r.repetition == attempt.repetition,
        r.is_champion == (champion_of(champions.champions@, task.task_class@) == Some(model.id@)),
        !r.regressed_vs_champion,
        r.data_classification == task.data_classification,
        r.sovereignty_note@ == sovereignty_note_for(model.provider@),
        opt_view(r.response_preview) == preview_of(task.data_classification, attempt.answer),
{
    let ghost before = attempt;
    let is_champion = champions.is_champion(task.task_class.as_str(), model.id.as_str());
    let execution_mode = if demo {
        ExecutionMode::Demo
    } else {
        ExecutionMode::Live
    };
    let Attempt { run_id, evaluation_id, created_at, repetition, answer, answer_json, estimated_cost_per_1000_tasks } =
        attempt;
    let (execution_status, pass, detail, response, latency_ms, tokens_in, tokens_out) = match answer {
        Some(a) => {
            let (pass, detail) = match grade(&task.grader, a.text.as_str(), answer_json.as_ref()) {
                Ok(v) => v,
                Err(e) => {
                    let mut d = "Grader failure: ".to_owned();
                    d.append(e.message());
                    (false, d)
                },
            };
            (ExecutionStatus::Completed, pass, detail, Some(a.text), Some(a.latency_ms), a.tokens_in, a.tokens_out)
        },
        None => (
            ExecutionStatus::ProviderError,
            false,
            PROVIDER_FAILURE_DETAIL.to_owned(),
            None,
            None,
            None,
            None,
        ),
    };
    let gate_status = evaluate_gate(&task.quality_gate, &execution_mode, &execution_status, pass, latency_ms, None);
    let response_preview = if task.data_classification == DataClassification::Confidential
        || task.data_classification == DataClassification::Restricted {
        None
    } else {
        match &response {
            Some(text) => {
                let n = text.as_str().unicode_len();
                let keep = if n < PREVIEW_CHARS {
                    n
                } else {
                    PREVIEW_CHARS
                };
                Some(text.as_str().substring_char(0, keep).to_owned())
            },
            None => None,
        }
    };
    proof {
        reveal_strlit("local");
    }
    let sovereignty_note = if str_eq(model.provider.as_str(), "local") {
        LOCAL_NOTE.to_owned()
    } else {
        HOSTED_NOTE.to_owned()
    };
    RunResult {
        run_id,
        evaluation_id,
        created_at,
        execution_mode,
        execution_status,
        benchmark_version: clone_string(&benchmarks.version),
        model_catalog_version: clone_string(&models.version),
        task_id: clone_string(&task.id),
        prompt_version: clone_string(&task.prompt_version),
        department: clone_string(&task.department),
        team: clone_string(&task.team),
        business_value: clone_string(&task.business_value),
        process: clone_string(&task.process),
        task_class: clone_string(&task.task_class),
        model_id: clone_string(&model.id),
        provider_model_id: clone_string(&model.model),
        quantisation: clone_string(&model.quantisation),
        runtime: clone_string(&model.runtime),
        hardware: clone_string(&model.hardware),
        license: clone_string(&model.license),
        registry_source: clone_string(&model.registry_source),
        artifact_digest: clone_optional(&model.artifact_digest),
        deterministic_pass: pass,
        grader_detail: detail,
        quality_gate: task.quality_gate,
        gate_status,
        human_quality_score: None,
        reviewer: None,
        reviewed_at: None,
        latency_ms,
        tokens_in,
        tokens_out,
        estimated_cost_per_1000_tasks,
        cost_basis: clone_optional(&model.cost_basis),
        repetition,
        is_champion,
        regressed_vs_champion: false,
        data_classification: task.data_classification,
        sovereignty_note,
        response_preview,
    }
}


/// An accepted request pairs every task only with models that are approved
/// for the task's data class, and runs a model live only when it is approved
/// for live runs.
pub proof fn law_accepted_request_respects_routes(
    benchmarks: BenchmarkCatalog,
    models: ModelCatalog,
    request: StartRunRequest,
    i: int,
    j: int,
)
    requires
        request_error(benchmarks, models, request) is None,
        0 <= i < request.task_ids@.len(),
        0 <= j < request.model_ids@.len(),
    ensures
        task_position(benchmarks.tasks@, request.task_ids@[i]@) matches Some(ti) && model_position(
            models.models@,
            request.model_ids@[j]@,
        ) matches Some(mi) && models.models@[mi].allowed_data@.contains(benchmarks.tasks@[ti].data_classification)
            && (request.demo || models.models@[mi].approved_for_live),
{
    lemma_scan_clear(benchmarks.tasks@, models.models@, request, 0, i);
    let ti = task_position(benchmarks.tasks@, request.task_ids@[i]@)->0;
    lemma_models_clear(models.models@, request, benchmarks.tasks@[ti], 0, j);
}

proof fn lemma_scan_clear(
    tasks: Seq<BenchmarkTask>,
    models: Seq<ModelConfig>,
    request: StartRunRequest,
    from: int,
    i: int,
)
    requires
        0 <= from <= i < request.task_ids@.len(),
        scan_error(tasks, models, request, from) is None,
    ensures
        task_position(tasks, request.task_ids@[i]@) matches Some(ti) && models_error(models, request, tasks[ti], 0)
            is None,
    decreases i - from,
{
    if from < i {
        lemma_scan_clear(tasks, models, request, from + 1, i);
    }
}

proof fn lemma_models_clear(
    models: Seq<ModelConfig>,
    request: StartRunRequest,
    task: BenchmarkTask,
    from: int,
    j: int,
)
    requires
        0 <= from <= j < request.model_ids@.len(),
        models_error(models, request, task, from) is None,
    ensures
        pair_error(models, request, task, j) is None,
    decreases j - from,
{
    if from < j {
        lemma_models_clear(models, request, task, from + 1, j);
    }
}

/// A challenger's failure is a regression exactly when the champion ran the
/// same task in the evaluation and passed every repetition of it, whatever
/// the challenger's other repetitions gave.
pub proof fn law_failing_challenger_after_champion_pass(results: Seq<RunResult>, k: int)
    requires
        0 <= k < results.len(),
        !results[k].is_champion,
        !results[k].deterministic_pass,
    ensures
        is_regression(results, k) <==> ((exists|c: int|
            0 <= c < results.len() && (#[trigger] results[c]).is_champion && results[c].task_id@
                == results[k].task_id@) && (forall|c: int|
            0 <= c < results.len() && (#[trigger] results[c]).is_champion && results[c].task_id@
                == results[k].task_id@ ==> results[c].deterministic_pass)),
{
}

/// A champion's own result is never flagged as a regression.
pub proof fn law_champion_never_regresses(results: Seq<RunResult>, k: int)
    requires
        0 <= k < results.len(),
        results[k].is_champion,
    ensures
        !is_regression(results, k),
{
}

/// A passing result is never flagged as a regression.
pub proof fn law_passing_result_never_regresses(results: Seq<RunResult>, k: int)
    requires
        0 <= k < results.len(),
        results[k].deterministic_pass,
    ensures
        !is_regression(results, k),
{
}

/// A challenger's failure is no regression when the champion failed a
/// repetition of the same task.
pub proof fn law_no_regression_without_champion_pass(results: Seq<RunResult>, k: int, c: int)
    requires
        0 <= k < results.len(),
        0 <= c < results.len(),
        results[c].is_champion,
        results[c].task_id@ == results[k].task_id@,
        !results[c].deterministic_pass,
    ensures
        !is_regression(results, k),
{
}

/// A challenger's failure is no regression when the champion did not run the
/// same task in the evaluation.
pub proof fn law_no_regression_without_champion_run(results: Seq<RunResult>, k: int)
    requires
        0 <= k < results.len(),
        forall|c: int|
            0 <= c < results.len() && (#[trigger] results[c]).is_champion ==> results[c].task_id@ != results[k].task_id@,
    ensures
        !is_regression(results, k),
{
}

} // verus!
