//! Consistency rules of the benchmark and model catalogs, checked before the
//! service starts.

use vstd::prelude::*;

use crate::approvals::clone_string;
use crate::domain::{BenchmarkCatalog, BenchmarkTask, ModelCatalog, ModelConfig};
use crate::text::{chars_of, framed, has_prefix, starts_with, str_eq, trim, trimmed};

verus! {

/// Why a catalog was refused. Variants that concern one entry name it.
#[derive(Debug, PartialEq, Eq)]
pub enum ConfigError {
    /// Benchmark task IDs must be non-empty and unique.
    InvalidTaskIds,
    MissingPromptVersion(String),
    /// The human score gate of the task is outside 1 to 5.
    InvalidHumanScoreGate(String),
    /// Model IDs must be non-empty and unique.
    InvalidModelIds,
    /// A local model must use a loopback endpoint.
    LocalEndpointNotLoopback(String),
    /// A hosted model must use HTTPS.
    HostedEndpointNotHttps(String),
    UnknownProvider(String),
    /// A live-approved model must have an artifact digest.
    LiveModelWithoutDigest(String),
    /// A model with a token price must record how the price was established.
    PriceWithoutCostBasis(String),
}

/// The text that explains a refused catalog.
pub open spec fn config_error_text(e: ConfigError) -> Seq<char> {
    match e {
        ConfigError::InvalidTaskIds => "Benchmark task IDs must be non-empty and unique"@,
        ConfigError::MissingPromptVersion(id) => "Task "@ + id@ + " has no prompt version"@,
        ConfigError::InvalidHumanScoreGate(id) => "Task "@ + id@ + " has an invalid human score gate"@,
        ConfigError::InvalidModelIds => "Model IDs must be non-empty and unique"@,
        ConfigError::LocalEndpointNotLoopback(id) => "Local model "@ + id@ + " must use a loopback endpoint in this POC"@,
        ConfigError::HostedEndpointNotHttps(id) => "Hosted model "@ + id@ + " must use HTTPS"@,
        ConfigError::UnknownProvider(id) => "Model "@ + id@ + " has an unknown provider type"@,
        ConfigError::LiveModelWithoutDigest(id) => "Live-approved model "@ + id@ + " must have an artifact digest"@,
        ConfigError::PriceWithoutCostBasis(id) => "Model "@ + id@
            + " has a token price but does not record how the price was established"@,
    }
}

impl ConfigError {
    /// The explanation of the refusal.
    pub fn message(&self) -> (s: String)
        ensures
            s@ == config_error_text(*self),
    {
        match self {
            ConfigError::InvalidTaskIds => "Benchmark task IDs must be non-empty and unique".to_owned(),
            ConfigError::MissingPromptVersion(id) => framed("Task ", id.as_str(), " has no prompt version"),
            ConfigError::InvalidHumanScoreGate(id) => framed("Task ", id.as_str(), " has an invalid human score gate"),
            ConfigError::InvalidModelIds => "Model IDs must be non-empty and unique".to_owned(),
            ConfigError::LocalEndpointNotLoopback(id) => framed(
                "Local model ",
                id.as_str(),
                " must use a loopback endpoint in this POC",
            ),
            ConfigError::HostedEndpointNotHttps(id) => framed("Hosted model ", id.as_str(), " must use HTTPS"),
            ConfigError::UnknownProvider(id) => framed("Model ", id.as_str(), " has an unknown provider type"),
            ConfigError::LiveModelWithoutDigest(id) => framed(
                "Live-approved model ",
                id.as_str(),
                " must have an artifact digest",
            ),
            ConfigError::PriceWithoutCostBasis(id) => framed(
                "Model ",
                id.as_str(),
                " has a token price but does not record how the price was established",
            ),
        }
    }
}

/// The problem with task `i` of the catalog, given the tasks before it.
pub open spec fn task_error(tasks: Seq<BenchmarkTask>, i: int) -> Option<ConfigError> {
    let t = tasks[i];
    if trimmed(t.id@).len() == 0 || exists|j: int| 0 <= j < i && #[trigger] tasks[j].id@ == t.id@ {
        Some(ConfigError::InvalidTaskIds)
    } else if trimmed(t.prompt_version@).len() == 0 {
        Some(ConfigError::MissingPromptVersion(t.id))
    } else if t.quality_gate.minimum_human_score matches Some(score) && !(1 <= score <= 5) {
        Some(ConfigError::InvalidHumanScoreGate(t.id))
    } else {
        None
    }
}

/// An ASCII decimal digit.
pub open spec fn is_digit(c: char) -> bool {
    0x30 <= (c as u32) <= 0x39
}

/// The URL holds digits from `at` up to `k`, and at `k` a path or its end.
pub open spec fn digits_then_path(url: Seq<char>, at: int, k: int) -> bool {
    at < k <= url.len() && (forall|i: int| at <= i < k ==> is_digit(#[trigger] url[i])) && (k == url.len()
        || url[k] == '/')
}

/// From position `at` the URL holds one or more digits, then a path or
/// nothing.
pub open spec fn port_at(url: Seq<char>, at: int) -> bool {
    exists|k: int| #[trigger] digits_then_path(url, at, k)
}

/// The URL starts with `origin`, and what follows is nothing, a path, or a
/// port of digits followed by nothing or a path: the authority of the URL is
/// exactly the origin's host, with an optional port.
pub open spec fn has_origin(url: Seq<char>, origin: Seq<char>) -> bool {
    let n = origin.len() as int;
    &&& has_prefix(url, origin)
    &&& url.len() == n || url[n] == '/' || (url[n] == ':' && port_at(url, n + 1))
}

/// The base URL is an `http://` URL whose host is exactly `127.0.0.1`,
/// `localhost` or `[::1]`, with an optional port and no user information.
pub open spec fn is_loopback_url(url: Seq<char>) -> bool {
    has_origin(url, "http://127.0.0.1"@) || has_origin(url, "http://localhost"@) || has_origin(
        url,
        "http://[::1]"@,
    )
}

fn is_digit_char(c: char) -> (b: bool)
    ensures
        b == is_digit(c),
{
    let u = c as u32;
    0x30 <= u && u <= 0x39
}

fn port_at_exec(v: &Vec<char>, at: usize) -> (r: bool)
    requires
        at <= v@.len(),
    ensures
        r == port_at(v@, at as int),
{
    let mut k = at;
    while k < v.len() && is_digit_char(v[k])
        invariant
            at <= k <= v@.len(),
            forall|i: int| at <= i < k ==> is_digit(#[trigger] v@[i]),
        decreases v@.len() - k,
    {
        k = k + 1;
    }
    if k > at && (k == v.len() || v[k] == '/') {
        assert(digits_then_path(v@, at as int, k as int));
        return true;
    }
    proof {
        assert forall|k2: int| #[trigger] digits_then_path(v@, at as int, k2) implies false by {
            if k2 < k {
                assert(is_digit(v@[k2]));
            } else if k2 > k {
                assert(is_digit(v@[k as int]));
            } else {
                if k == at {
                }
            }
        }
    }
    false
}

fn starts_with_origin(url: &str, origin: &str) -> (r: bool)
    ensures
        r == has_origin(url@, origin@),
{
    if !starts_with(url, origin) {
        return false;
    }
    let v = chars_of(url);
    let n = origin.unicode_len();
    if v.len() == n {
        return true;
    }
    if v[n] == '/' {
        return true;
    }
    v[n] == ':' && port_at_exec(&v, n + 1)
}

/// A loopback URL carries no user information: an `@` can only stand in its
/// path, after the first `/` that follows the scheme.
pub proof fn law_loopback_url_has_no_user_info(url: Seq<char>, i: int)
    requires
        is_loopback_url(url),
        7 <= i < url.len(),
        url[i] == '@',
    ensures
        exists|j: int| 7 <= j < i && url[j] == '/',
{
    reveal_strlit("http://127.0.0.1");
    reveal_strlit("http://localhost");
    reveal_strlit("http://[::1]");
    let origin = if has_origin(url, "http://127.0.0.1"@) {
        "http://127.0.0.1"@
    } else if has_origin(url, "http://localhost"@) {
        "http://localhost"@
    } else {
        "http://[::1]"@
    };
    let n = origin.len() as int;
    assert(has_origin(url, origin));
    if i < n {
        assert(url.subrange(0, n)[i] == origin[i]);
        assert(false);
    }
    if url[n] == '/' {
        assert(7 <= n < i);
    } else {
        let k = choose|k: int| #[trigger] digits_then_path(url, n + 1, k);
        if i < k {
            assert(is_digit(url[i]));
        }
        assert(7 <= k < i);
    }
}

/// The problem with model `i` of the catalog, given the models before it.
pub open spec fn model_error(models: Seq<ModelConfig>, i: int) -> Option<ConfigError> {
    let m = models[i];
    if trimmed(m.id@).len() == 0 || exists|j: int| 0 <= j < i && #[trigger] models[j].id@ == m.id@ {
        Some(ConfigError::InvalidModelIds)
    } else if m.provider@ == "local"@ && !is_loopback_url(m.base_url@) {
        Some(ConfigError::LocalEndpointNotLoopback(m.id))
    } else if m.provider@ == "hosted"@ && !has_prefix(m.base_url@, "https://"@) {
        Some(ConfigError::HostedEndpointNotHttps(m.id))
    } else if m.provider@ != "local"@ && m.provider@ != "hosted"@ {
        Some(ConfigError::UnknownProvider(m.id))
    } else if m.approved_for_live && m.artifact_digest is None {
        Some(ConfigError::LiveModelWithoutDigest(m.id))
    } else if (m.input_cost_per_million is Some || m.output_cost_per_million is Some) && m.cost_basis is None {
        Some(ConfigError::PriceWithoutCostBasis(m.id))
    } else {
        None
    }
}

/// A model that passes the catalog rules has a loopback endpoint when it is
/// local and an HTTPS endpoint otherwise, declares a digest when it is marked
/// for live runs, and records a cost basis when it has a token price.
pub proof fn law_valid_model_routes(models: Seq<ModelConfig>, i: int)
    requires
        0 <= i < models.len(),
        model_error(models, i) is None,
    ensures
        models[i].provider@ == "local"@ ==> is_loopback_url(models[i].base_url@),
        models[i].provider@ != "local"@ ==> models[i].provider@ == "hosted"@ && has_prefix(
            models[i].base_url@,
            "https://"@,
        ),
        models[i].approved_for_live ==> models[i].artifact_digest is Some,
        models[i].input_cost_per_million is Some || models[i].output_cost_per_million is Some
            ==> models[i].cost_basis is Some,
{
}

/// A model with no token price needs no cost basis: a model whose ID is
/// present and unique, whose provider is `hosted` with an HTTPS endpoint or
/// `local` with a loopback one, and that is not marked for live runs or
/// declares a digest, passes the catalog rules when it has no price, whether
/// or not it records a cost basis.
pub proof fn law_unpriced_model_needs_no_cost_basis(models: Seq<ModelConfig>, i: int)
    requires
        0 <= i < models.len(),
        models[i].input_cost_per_million is None,
        models[i].output_cost_per_million is None,
    ensures
        !(model_error(models, i) matches Some(ConfigError::PriceWithoutCostBasis(_))),
        (trimmed(models[i].id@).len() > 0 && (forall|j: int| 0 <= j < i ==> #[trigger] models[j].id@ != models[i].id@)
            && ((models[i].provider@ == "hosted"@ && has_prefix(models[i].base_url@, "https://"@)) || (
        models[i].provider@ == "local"@ && is_loopback_url(models[i].base_url@))) && (!models[i].approved_for_live
            || models[i].artifact_digest is Some)) ==> model_error(models, i) is None,
{
    reveal_strlit("local");
    reveal_strlit("hosted");
    assert("local"@.len() != "hosted"@.len());
}

/// A task that passes the catalog rules has an ID no earlier task has, a
/// prompt version, and a human score gate, if any, from 1 to 5.
pub proof fn law_valid_task(tasks: Seq<BenchmarkTask>, i: int)
    requires
        0 <= i < tasks.len(),
        task_error(tasks, i) is None,
    ensures
        trimmed(tasks[i].id@).len() > 0,
        forall|j: int| 0 <= j < i ==> #[trigger] tasks[j].id@ != tasks[i].id@,
        trimmed(tasks[i].prompt_version@).len() > 0,
        tasks[i].quality_gate.minimum_human_score matches Some(s) ==> 1 <= s <= 5,
{
}

/// True when the ID of entry `i` is blank or repeats an earlier one.
fn id_is_blank_or_repeated(ids: &Vec<&String>, i: usize) -> (r: bool)
    requires
        i < ids@.len(),
    ensures
        r == (trimmed(ids@[i as int]@).len() == 0 || exists|j: int|
            0 <= j < i && #[trigger] ids@[j]@ == ids@[i as int]@),
{
    if trim(ids[i].as_str()).unicode_len() == 0 {
        return true;
    }
    let mut j: usize = 0;
    while j < i
        invariant
            i < ids@.len(),
            j <= i,
            forall|k: int| 0 <= k < j ==> #[trigger] ids@[k]@ != ids@[i as int]@,
        decreases i - j,
    {
        if str_eq(ids[j].as_str(), ids[i].as_str()) {
            return true;
        }
        j = j + 1;
    }
    false
}

fn check_task(tasks: &Vec<BenchmarkTask>, i: usize) -> (r: Option<ConfigError>)
    requires
        i < tasks@.len(),
    ensures
        r == task_error(tasks@, i as int),
{
    let mut ids: Vec<&String> = Vec::new();
    let n = tasks.len();
    let mut k: usize = 0;
    while k <= i
        invariant
            i < tasks@.len(),
            n == tasks@.len(),
            k <= i + 1,
            ids@.len() == k,
            forall|j: int| 0 <= j < k ==> *#[trigger] ids@[j] == tasks@[j].id,
        decreases i + 1 - k,
    {
        ids.push(&tasks[k].id);
        k = k + 1;
    }
    let t = &tasks[i];
    if id_is_blank_or_repeated(&ids, i) {
        proof {
            if trimmed(t.id@).len() != 0 {
                let j = choose|j: int| 0 <= j < i && #[trigger] ids@[j]@ == ids@[i as int]@;
                assert(tasks@[j].id@ == t.id@);
            }
        }
        return Some(ConfigError::InvalidTaskIds);
    }
    assert forall|j: int| 0 <= j < i implies #[trigger] tasks@[j].id@ != t.id@ by {
        assert(ids@[j]@ != ids@[i as int]@);
    }
    if trim(t.prompt_version.as_str()).unicode_len() == 0 {
        return Some(ConfigError::MissingPromptVersion(clone_string(&t.id)));
    }
    match t.quality_gate.minimum_human_score {
        Some(score) => {
            if !(1 <= score && score <= 5) {
                return Some(ConfigError::InvalidHumanScoreGate(clone_string(&t.id)));
            }
        },
        None => {},
    }
    None
}

fn check_model(models: &Vec<ModelConfig>, i: usize) -> (r: Option<ConfigError>)
    requires
        i < models@.len(),
    ensures
        r == model_error(models@, i as int),
{
    let mut ids: Vec<&String> = Vec::new();
    let n = models.len();
    let mut k: usize = 0;
    while k <= i
        invariant
            i < models@.len(),
            n == models@.len(),
            k <= i + 1,
            ids@.len() == k,
            forall|j: int| 0 <= j < k ==> *#[trigger] ids@[j] == models@[j].id,
        decreases i + 1 - k,
    {
        ids.push(&models[k].id);
        k = k + 1;
    }
    let m = &models[i];
    if id_is_blank_or_repeated(&ids, i) {
        proof {
            if trimmed(m.id@).len() != 0 {
                let j = choose|j: int| 0 <= j < i && #[trigger] ids@[j]@ == ids@[i as int]@;
                assert(models@[j].id@ == m.id@);
            }
        }
        return Some(ConfigError::InvalidModelIds);
    }
    assert forall|j: int| 0 <= j < i implies #[trigger] models@[j].id@ != m.id@ by {
        assert(ids@[j]@ != ids@[i as int]@);
    }
    proof {
        reveal_strlit("local");
        reveal_strlit("hosted");
        assert("local"@.len() != "hosted"@.len());
    }
    if str_eq(m.provider.as_str(), "local") {
        let local = starts_with_origin(m.base_url.as_str(), "http://127.0.0.1") || starts_with_origin(
            m.base_url.as_str(),
            "http://localhost",
        ) || starts_with_origin(m.base_url.as_str(), "http://[::1]");
        if !local {
            return Some(ConfigError::LocalEndpointNotLoopback(clone_string(&m.id)));
        }
    } else if str_eq(m.provider.as_str(), "hosted") {
        if !starts_with(m.base_url.as_str(), "https://") {
            return Some(ConfigError::HostedEndpointNotHttps(clone_string(&m.id)));
        }
    } else {
        return Some(ConfigError::UnknownProvider(clone_string(&m.id)));
    }
    assert(m.provider@ == "local"@ ==> is_loopback_url(m.base_url@));
    assert(m.provider@ == "hosted"@ ==> has_prefix(m.base_url@, "https://"@));
    assert(m.provider@ == "local"@ || m.provider@ == "hosted"@);
    if m.approved_for_live && m.artifact_digest.is_none() {
        return Some(ConfigError::LiveModelWithoutDigest(clone_string(&m.id)));
    }
    if (m.input_cost_per_million.is_some() || m.output_cost_per_million.is_some()) && m.cost_basis.is_none() {
        return Some(ConfigError::PriceWithoutCostBasis(clone_string(&m.id)));
    }
    None
}

/// Check both catalogs: every task, in order, then every model, in order.
/// The first problem found is reported.
#[verifier::loop_isolation(false)]
pub fn validate(benchmarks: &BenchmarkCatalog, models: &ModelCatalog) -> (r: Result<(), ConfigError>)
    ensures
        r is Ok <==> (forall|i: int|
            0 <= i < benchmarks.tasks@.len() ==> #[trigger] task_error(benchmarks.tasks@, i) is None)
            && (forall|i: int|
            0 <= i < models.models@.len() ==> #[trigger] model_error(models.models@, i) is None),
        r matches Err(e) ==> (exists|i: int|
            0 <= i < benchmarks.tasks@.len() && #[trigger] task_error(benchmarks.tasks@, i) == Some(e)
                && forall|k: int| 0 <= k < i ==> #[trigger] task_error(benchmarks.tasks@, k) is None) || (
        (forall|i: int| 0 <= i < benchmarks.tasks@.len() ==> #[trigger] task_error(benchmarks.tasks@, i) is None)
            && exists|i: int|
            0 <= i < models.models@.len() && #[trigger] model_error(models.models@, i) == Some(e)
                && forall|k: int| 0 <= k < i ==> #[trigger] model_error(models.models@, k) is None),
{
    let tasks = &benchmarks.tasks;
    let mut i: usize = 0;
    while i < tasks.len()
        invariant
            i <= tasks@.len(),
            forall|k: int| 0 <= k < i ==> #[trigger] task_error(tasks@, k) is None,
        decreases tasks@.len() - i,
    {
        match check_task(tasks, i) {
            Some(e) => return Err(e),
            None => {},
        }
        i = i + 1;
    }
    let ms = &models.models;
    let mut j: usize = 0;
    while j < ms.len()
        invariant
            j <= ms@.len(),
            forall|k: int| 0 <= k < tasks@.len() ==> #[trigger] task_error(tasks@, k) is None,
            forall|k: int| 0 <= k < j ==> #[trigger] model_error(ms@, k) is None,
        decreases ms@.len() - j,
    {
        match check_model(ms, j) {
            Some(e) => return Err(e),
            None => {},
        }
        j = j + 1;
    }
    Ok(())
}

} // verus!
