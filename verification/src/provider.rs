//! What the library decides around a model call: the endpoint, the answer
//! taken from a provider's reply, and the synthetic answers of a demo run.

use vstd::prelude::*;

use crate::domain::{BenchmarkTask, GraderSpec};
use crate::json::JsonValue;
use crate::lines::{join_with, joined, views};
use crate::text::{chars_of, str_eq};
use vstd::utf8::encode_utf8;

verus! {

#[derive(Debug)]
pub struct ModelAnswer {
    pub text: String,
    pub latency_ms: u64,
    pub tokens_in: Option<u64>,
    pub tokens_out: Option<u64>,
}

/// The text without its trailing slashes.
pub open spec fn without_trailing_slashes(s: Seq<char>) -> Seq<char>
    decreases s.len(),
{
    if s.len() > 0 && s.last() == '/' {
        without_trailing_slashes(s.drop_last())
    } else {
        s
    }
}

proof fn lemma_without_trailing_slashes(s: Seq<char>, end: int)
    requires
        0 <= end <= s.len(),
        forall|k: int| end <= k < s.len() ==> #[trigger] s[k] == '/',
        end == 0 || s[end - 1] != '/',
    ensures
        without_trailing_slashes(s) == s.subrange(0, end),
    decreases s.len() - end,
{
    if end == s.len() {
        assert(s.subrange(0, end) =~= s);
    } else {
        let t = s.drop_last();
        assert forall|k: int| end <= k < t.len() implies #[trigger] t[k] == '/' by {
            assert(t[k] == s[k]);
        }
        lemma_without_trailing_slashes(t, end);
        assert(t.subrange(0, end) =~= s.subrange(0, end));
    }
}

/// Build the chat completions URL for an OpenAI-compatible base URL,
/// tolerating trailing slashes.
pub fn chat_url(base_url: &str) -> (url: String)
    ensures
        url@ == without_trailing_slashes(base_url@) + "/chat/completions"@,
{
    let v = chars_of(base_url);
    let mut end = v.len();
    while end > 0 && v[end - 1] == '/'
        invariant
            v@ == base_url@,
            end <= v@.len(),
            forall|k: int| end <= k < v@.len() ==> #[trigger] v@[k] == '/',
        decreases end,
    {
        end = end - 1;
    }
    proof {
        lemma_without_trailing_slashes(base_url@, end as int);
    }
    let mut url = base_url.substring_char(0, end).to_owned();
    url.append("/chat/completions");
    url
}

/// The answer that a provider's reply carries: the first choice's content,
/// with the prompt and completion token counts when the reply reports usage.
/// `None` when the reply holds no choice.
pub fn answer_from_reply(contents: Vec<String>, usage: Option<(u64, u64)>, latency_ms: u64) -> (r: Option<
    ModelAnswer,
>)
    ensures
        contents@.len() == 0 <==> r is None,
        r matches Some(a) ==> {
            &&& a.text == contents@[0]
            &&& a.latency_ms == latency_ms
            &&& a.tokens_in == (match usage {
                Some(u) => Some(u.0),
                None => None,
            })
            &&& a.tokens_out == (match usage {
                Some(u) => Some(u.1),
                None => None,
            })
        },
{
    let (tokens_in, tokens_out) = match usage {
        Some((prompt, completion)) => (Some(prompt), Some(completion)),
        None => (None, None),
    };
    let mut contents = contents;
    if contents.len() == 0 {
        return None;
    }
    let text = contents.swap_remove(0);
    Some(ModelAnswer { text, latency_ms, tokens_in, tokens_out })
}

/// The answer that the log-regex task is shown in a demo.
pub const DEMO_LOG_ANSWER: &'static str = "ERROR policy=POL123 source=ACE severity=high";

/// The task and model pair whose demo answer fails, so that a demo shows both
/// pass and fail states.
pub const DEMO_FAILING_TASK: &'static str = "ACT-EAC2-001";

pub const DEMO_FAILING_MODEL: &'static str = "gpt-oss-20b-local";

/// The answer given to that pair.
pub const DEMO_FAILING_ANSWER: &'static str = "{\"finding_code\":\"TERM_MATCH\",\"required_action_code\":\"NONE\",\"risk\":\"low\"}";

/// The value of each required field in a demo answer to a JSON fields task.
pub const DEMO_FIELD_VALUE: &'static str = "demo";

/// The JSON value that a demo answer shows a JSON grader.
#[derive(Debug)]
pub enum DemoJson<'a> {
    /// The grader does not read JSON.
    NotJson,
    /// An object whose members are the required fields, in order, each
    /// holding `"demo"`.
    Object(JsonValue),
    /// The value the grader expects.
    Expected(&'a JsonValue),
}

/// The object holds exactly the `fields`, in order, each with the value
/// `"demo"`.
pub open spec fn is_demo_object(v: JsonValue, fields: Seq<String>) -> bool {
    v matches JsonValue::Object(ms) && ms@.len() == fields.len() && forall|i: int|
        0 <= i < fields.len() ==> (#[trigger] ms@[i]).0 == fields[i] && (ms@[i].1 matches JsonValue::String(t)
            && t@ == DEMO_FIELD_VALUE@)
}

/// The JSON value that a demo answer shows the task's grader: for a JSON
/// fields grader an object of its fields, each holding `"demo"`; for a JSON
/// equality grader the expected value; for any other grader none.
pub fn demo_json(grader: &GraderSpec) -> (r: DemoJson<'_>)
    ensures
        match *grader {
            GraderSpec::JsonFields { fields } => (r matches DemoJson::Object(v) && is_demo_object(v, fields@)),
            GraderSpec::JsonEquals { expected } => (r matches DemoJson::Expected(e) && *e == expected),
            _ => r is NotJson,
        },
{
    match grader {
        GraderSpec::JsonFields { fields } => {
            let mut ms: Vec<(String, JsonValue)> = Vec::new();
            let mut i: usize = 0;
            while i < fields.len()
                invariant
                    i <= fields@.len(),
                    ms@.len() == i,
                    forall|k: int|
                        0 <= k < i ==> (#[trigger] ms@[k]).0 == fields@[k] && (ms@[k].1 matches JsonValue::String(
                            t,
                        ) && t@ == DEMO_FIELD_VALUE@),
                decreases fields@.len() - i,
            {
                ms.push((fields[i].clone(), JsonValue::String(DEMO_FIELD_VALUE.to_owned())));
                i = i + 1;
            }
            DemoJson::Object(JsonValue::Object(ms))
        },
        GraderSpec::JsonEquals { expected } => DemoJson::Expected(expected),
        _ => DemoJson::NotJson,
    }
}

/// The text of a demo answer before the failing pair is applied.
/// `rendered_json` is the JSON text that the JSON graders are shown.
pub open spec fn demo_text(grader: GraderSpec, rendered_json: Seq<char>) -> Seq<char> {
    match grader {
        GraderSpec::Exact { expected } => expected@,
        GraderSpec::ContainsAll { values } => joined(views(values@), "; "@),
        GraderSpec::Regex { .. } => DEMO_LOG_ANSWER@,
        GraderSpec::JsonFields { .. } => rendered_json,
        GraderSpec::JsonEquals { .. } => rendered_json,
        GraderSpec::ExactLines { expected, .. } => joined(views(expected@), "\n"@),
    }
}

/// A synthetic answer for a demo run. It is not model evidence. The JSON
/// graders are shown `rendered_json`, the JSON text of the value that
/// `demo_json` gives for the task's grader.
pub fn demo_answer(task: &BenchmarkTask, model_id: &str, model_index: usize, rendered_json: &str) -> (a: ModelAnswer)
    requires
        680 + model_index * 410 + encode_utf8(task.id@).len() * 7 <= u64::MAX,
        70 + model_index * 9 <= u64::MAX,
    ensures
        a.text@ == if task.id@ == DEMO_FAILING_TASK@ && model_id@ == DEMO_FAILING_MODEL@ {
            DEMO_FAILING_ANSWER@
        } else {
            demo_text(task.grader, rendered_json@)
        },
        a.latency_ms == 680 + model_index * 410 + encode_utf8(task.id@).len() * 7,
        a.tokens_in == Some((180 + encode_utf8(task.prompt@).len() / 4) as u64),
        a.tokens_out == Some((70 + model_index * 9) as u64),
{
    let mut text = match &task.grader {
        GraderSpec::Exact { expected } => expected.clone(),
        GraderSpec::ContainsAll { values } => join_with(values, "; "),
        GraderSpec::Regex { .. } => DEMO_LOG_ANSWER.to_owned(),
        GraderSpec::JsonFields { .. } => rendered_json.to_owned(),
        GraderSpec::JsonEquals { .. } => rendered_json.to_owned(),
        GraderSpec::ExactLines { expected, .. } => join_with(expected, "\n"),
    };
    if str_eq(task.id.as_str(), DEMO_FAILING_TASK) && str_eq(model_id, DEMO_FAILING_MODEL) {
        text = DEMO_FAILING_ANSWER.to_owned();
    }
    let id_bytes = task.id.as_str().as_bytes().len() as u64;
    let prompt_bytes = task.prompt.as_str().as_bytes().len() as u64;
    let index = model_index as u64;
    ModelAnswer {
        text,
        latency_ms: 680 + index * 410 + id_bytes * 7,
        tokens_in: Some(180 + prompt_bytes / 4),
        tokens_out: Some(70 + index * 9),
    }
}

} // verus!
