use tessera_model_gate::domain::{BenchmarkTask, DataClassification, GraderSpec, QualityGate};
use tessera_model_gate::json::JsonValue;
use tessera_model_gate::provider::{answer_from_reply, chat_url, demo_answer, demo_json, DemoJson};

#[test]
fn chat_url_appends_the_completions_path() {
    assert_eq!(chat_url("http://127.0.0.1:11434/v1"), "http://127.0.0.1:11434/v1/chat/completions");
}

#[test]
fn chat_url_tolerates_a_trailing_slash() {
    assert_eq!(chat_url("http://127.0.0.1:11434/v1/"), "http://127.0.0.1:11434/v1/chat/completions");
}

#[test]
fn chat_url_drops_every_trailing_slash() {
    assert_eq!(chat_url("https://gateway.example/v1///"), "https://gateway.example/v1/chat/completions");
    assert_eq!(chat_url(""), "/chat/completions");
}

fn task(id: &str, grader: GraderSpec) -> BenchmarkTask {
    BenchmarkTask {
        id: id.into(),
        prompt_version: "1".into(),
        department: "d".into(),
        team: "t".into(),
        business_value: "b".into(),
        process: "p".into(),
        task_class: "c".into(),
        data_classification: DataClassification::Internal,
        prompt: "abcdefgh".into(),
        grader,
        quality_gate: QualityGate::default(),
    }
}

#[test]
fn demo_answer_matches_the_grader() {
    let t = task("T1", GraderSpec::ContainsAll { values: vec!["error".into(), "policy".into()] });
    let a = demo_answer(&t, "m", 2, "");
    assert_eq!(a.text, "error; policy");
    assert_eq!(a.latency_ms, 680 + 2 * 410 + 2 * 7);
    assert_eq!(a.tokens_in, Some(180 + 2));
    assert_eq!(a.tokens_out, Some(70 + 18));
    let lines = task("T2", GraderSpec::ExactLines { expected: vec!["a".into(), "b".into()], ignore_order: false });
    assert_eq!(demo_answer(&lines, "m", 0, "").text, "a\nb");
    let json = task("T3", GraderSpec::JsonFields { fields: vec!["risk".into()] });
    assert_eq!(demo_answer(&json, "m", 0, "{\"risk\":\"demo\"}").text, "{\"risk\":\"demo\"}");
    let re = task("T4", GraderSpec::Regex { pattern: "ERROR".into() });
    assert_eq!(demo_answer(&re, "m", 0, "").text, "ERROR policy=POL123 source=ACE severity=high");
}

#[test]
fn demo_shows_a_failing_pair() {
    let t = task("ACT-EAC2-001", GraderSpec::Exact { expected: "x".into() });
    assert_eq!(
        demo_answer(&t, "gpt-oss-20b-local", 1, "").text,
        "{\"finding_code\":\"TERM_MATCH\",\"required_action_code\":\"NONE\",\"risk\":\"low\"}"
    );
    assert_eq!(demo_answer(&t, "other-model", 1, "").text, "x");
}

#[test]
fn reply_takes_the_first_choice_and_usage() {
    let a = answer_from_reply(vec!["first".into(), "second".into()], Some((12, 34)), 99).unwrap();
    assert_eq!(a.text, "first");
    assert_eq!(a.latency_ms, 99);
    assert_eq!(a.tokens_in, Some(12));
    assert_eq!(a.tokens_out, Some(34));
    let b = answer_from_reply(vec!["only".into()], None, 5).unwrap();
    assert_eq!(b.tokens_in, None);
    assert!(answer_from_reply(vec![], Some((1, 1)), 5).is_none());
}

#[test]
fn demo_json_follows_the_grader() {
    let fields = GraderSpec::JsonFields { fields: vec!["risk".into(), "action".into()] };
    match demo_json(&fields) {
        DemoJson::Object(JsonValue::Object(members)) => {
            assert_eq!(members.len(), 2);
            assert_eq!(members[0].0, "risk");
            assert_eq!(members[1].0, "action");
            for (_, v) in &members {
                assert!(matches!(v, JsonValue::String(s) if s == "demo"));
            }
        }
        other => panic!("unexpected demo value {other:?}"),
    }
    let equals = GraderSpec::JsonEquals { expected: JsonValue::Bool(true) };
    assert!(matches!(demo_json(&equals), DemoJson::Expected(JsonValue::Bool(true))));
    let exact = GraderSpec::Exact { expected: "x".into() };
    assert!(matches!(demo_json(&exact), DemoJson::NotJson));
}
