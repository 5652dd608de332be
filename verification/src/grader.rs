//! Deterministic graders: each checks a model's answer against a task's
//! expectation and explains its verdict.

use vstd::prelude::*;

use crate::domain::GraderSpec;
use crate::json::{has_field, has_member, json_eq, json_equal, JsonValue};
use crate::lines::{join_with, joined, nonblank_lines, nonblank_lines_of, same_lines, same_lines_in_any_order, views};
use crate::text::{contains, has_infix, lowercase, str_eq, to_lowercase, trim, trimmed};

verus! {

#[verifier::external_type_specification]
#[verifier::external_body]
pub struct ExRegexError(regex::Error);

/// The name for whether `regex::Regex::new` accepts a pattern.
pub uninterp spec fn regex_compiles(pattern: Seq<char>) -> bool;

/// The name for whether the expression compiled from `pattern` matches
/// somewhere in a text (`regex::Regex::is_match`).
pub uninterp spec fn regex_finds(pattern: Seq<char>, text: Seq<char>) -> bool;

/// `regex::Regex::new` on `pattern`, then `Regex::is_match` on `text`. It
/// fails exactly when the pattern does not compile; otherwise it tells
/// whether the compiled expression matches somewhere in the text.
#[verifier::external_body]
fn regex_match(pattern: &str, text: &str) -> (r: Result<bool, regex::Error>)
    ensures
        r is Ok <==> regex_compiles(pattern@),
        r matches Ok(b) ==> b == regex_finds(pattern@, text@),
{
    match regex::Regex::new(pattern) {
        Ok(compiled) => Ok(compiled.is_match(text)),
        Err(e) => Err(e),
    }
}

/// Why an answer could not be graded.
#[derive(Debug, PartialEq, Eq)]
pub enum GradeError {
    /// The grader regular expression is invalid.
    InvalidRegex,
    /// The answer is not valid JSON.
    AnswerNotJson,
}

/// The explanation of a grading failure.
pub open spec fn grade_error_text(e: GradeError) -> Seq<char> {
    match e {
        GradeError::InvalidRegex => "The grader regular expression is invalid"@,
        GradeError::AnswerNotJson => "The answer is not valid JSON"@,
    }
}

impl GradeError {
    pub fn message(&self) -> (s: &'static str)
        ensures
            s@ == grade_error_text(*self),
    {
        match self {
            GradeError::InvalidRegex => "The grader regular expression is invalid",
            GradeError::AnswerNotJson => "The answer is not valid JSON",
        }
    }
}

/// The text of a boolean, as `format!("{}")` writes it.
pub open spec fn bool_text(b: bool) -> Seq<char> {
    if b {
        "true"@
    } else {
        "false"@
    }
}

/// The items for which `present` does not hold, in order.
pub open spec fn missing(items: Seq<Seq<char>>, present: spec_fn(Seq<char>) -> bool) -> Seq<Seq<char>>
    decreases items.len(),
{
    if items.len() == 0 {
        Seq::empty()
    } else {
        let rest = missing(items.drop_last(), present);
        if present(items.last()) {
            rest
        } else {
            rest.push(items.last())
        }
    }
}

/// The verdict and its explanation when every item must be present.
pub open spec fn presence_verdict(
    missing_items: Seq<Seq<char>>,
    all_present: Seq<char>,
    missing_prefix: Seq<char>,
) -> (bool, Seq<char>) {
    if missing_items.len() == 0 {
        (true, all_present)
    } else {
        (false, missing_prefix + joined(missing_items, ", "@))
    }
}

/// What a grader decides of an answer: the verdict and its explanation, or
/// why the answer could not be graded. `answer_json` is the answer read as
/// JSON, `None` when it is not valid JSON.
pub open spec fn grading(spec: GraderSpec, answer: Seq<char>, answer_json: Option<JsonValue>) -> Result<
    (bool, Seq<char>),
    GradeError,
> {
    match spec {
        GraderSpec::Exact { expected } => {
            let pass = trimmed(answer) == trimmed(expected@);
            Ok((pass, "Exact match: "@ + bool_text(pass)))
        },
        GraderSpec::ContainsAll { values } => Ok(
            presence_verdict(
                missing(views(values@), |v: Seq<char>| has_infix(lowercase(answer), lowercase(v))),
                "All required terms are present"@,
                "Missing terms: "@,
            ),
        ),
        GraderSpec::Regex { pattern } => if regex_compiles(pattern@) {
            let pass = regex_finds(pattern@, answer);
            Ok((pass, "Regular expression match: "@ + bool_text(pass)))
        } else {
            Err(GradeError::InvalidRegex)
        },
        GraderSpec::JsonFields { fields } => match answer_json {
            None => Err(GradeError::AnswerNotJson),
            Some(v) => Ok(
                presence_verdict(
                    missing(views(fields@), |f: Seq<char>| has_member(v, f)),
                    "The required JSON fields are present"@,
                    "Missing JSON fields: "@,
                ),
            ),
        },
        GraderSpec::JsonEquals { expected } => match answer_json {
            None => Err(GradeError::AnswerNotJson),
            Some(v) => {
                let pass = json_eq(v, expected);
                Ok((pass, "Expected JSON value match: "@ + bool_text(pass)))
            },
        },
        GraderSpec::ExactLines { expected, ignore_order } => {
            let actual = nonblank_lines(answer);
            let pass = if ignore_order {
                actual.to_multiset() == views(expected@).to_multiset()
            } else {
                actual == views(expected@)
            };
            Ok((pass, "Exact line match: "@ + bool_text(pass)))
        },
    }
}

fn verdict_text(prefix: &str, pass: bool) -> (s: String)
    ensures
        s@ == prefix@ + bool_text(pass),
{
    let mut s = prefix.to_owned();
    if pass {
        s.append("true");
    } else {
        s.append("false");
    }
    proof {
        reveal_strlit("true");
        reveal_strlit("false");
    }
    s
}

fn presence_text(missing_items: &Vec<String>, all_present: &str, missing_prefix: &str) -> (r: (bool, String))
    ensures
        (r.0, r.1@) == presence_verdict(views(missing_items@), all_present@, missing_prefix@),
{
    if missing_items.len() == 0 {
        (true, all_present.to_owned())
    } else {
        let mut s = missing_prefix.to_owned();
        let j = join_with(missing_items, ", ");
        s.append(j.as_str());
        (false, s)
    }
}

/// The terms of `values` that the lowercased answer does not contain.
#[verifier::loop_isolation(false)]
fn missing_terms(lower_answer: &String, values: &Vec<String>) -> (m: Vec<String>)
    ensures
        views(m@) == missing(views(values@), |v: Seq<char>| has_infix(lower_answer@, lowercase(v))),
{
    let ghost present = |v: Seq<char>| has_infix(lower_answer@, lowercase(v));
    let mut m: Vec<String> = Vec::new();
    let mut i: usize = 0;
    while i < values.len()
        invariant
            i <= values@.len(),
            views(m@) == missing(views(values@).take(i as int), present),
        decreases values@.len() - i,
    {
        assert(views(values@).take(i + 1).drop_last() =~= views(values@).take(i as int));
        let lower = to_lowercase(values[i].as_str());
        assert(views(values@).take(i + 1).last() == values@[i as int]@);
        if !contains(lower_answer.as_str(), lower.as_str()) {
            m.push(values[i].clone());
            assert(views(m@) =~= missing(views(values@).take(i as int), present).push(values@[i as int]@));
        } else {
            assert(present(values@[i as int]@));
        }
        i = i + 1;
    }
    assert(views(values@).take(values@.len() as int) =~= views(values@));
    m
}

/// The fields of `fields` that the JSON value lacks.
#[verifier::loop_isolation(false)]
fn missing_fields(value: &JsonValue, fields: &Vec<String>) -> (m: Vec<String>)
    ensures
        views(m@) == missing(views(fields@), |f: Seq<char>| has_member(*value, f)),
{
    let ghost present = |f: Seq<char>| has_member(*value, f);
    let mut m: Vec<String> = Vec::new();
    let mut i: usize = 0;
    while i < fields.len()
        invariant
            i <= fields@.len(),
            views(m@) == missing(views(fields@).take(i as int), present),
        decreases fields@.len() - i,
    {
        assert(views(fields@).take(i + 1).drop_last() =~= views(fields@).take(i as int));
        assert(views(fields@).take(i + 1).last() == fields@[i as int]@);
        if !has_field(value, fields[i].as_str()) {
            m.push(fields[i].clone());
            assert(views(m@) =~= missing(views(fields@).take(i as int), present).push(fields@[i as int]@));
        } else {
            assert(present(fields@[i as int]@));
        }
        i = i + 1;
    }
    assert(views(fields@).take(fields@.len() as int) =~= views(fields@));
    m
}

/// Grade an answer. `answer_json` is the answer read as JSON, `None` when the
/// answer is not valid JSON; only the JSON graders read it.
pub fn grade(spec: &GraderSpec, answer: &str, answer_json: Option<&JsonValue>) -> (r: Result<
    (bool, String),
    GradeError,
>)
    ensures
        match grading(*spec, answer@, match answer_json {
            Some(v) => Some(*v),
            None => None,
        }) {
            Ok((pass, detail)) => (r matches Ok((p, d)) && p == pass && d@ == detail),
            Err(e) => r == Err::<(bool, String), GradeError>(e),
        },
{
    proof {
        reveal_strlit(", ");
    }
    match spec {
        GraderSpec::Exact { expected } => {
            let pass = str_eq(trim(answer), trim(expected.as_str()));
            Ok((pass, verdict_text("Exact match: ", pass)))
        },
        GraderSpec::ContainsAll { values } => {
            let lower = to_lowercase(answer);
            let m = missing_terms(&lower, values);
            Ok(presence_text(&m, "All required terms are present", "Missing terms: "))
        },
        GraderSpec::Regex { pattern } => {
            let pass = match regex_match(pattern.as_str(), answer) {
                Ok(b) => b,
                Err(_) => return Err(GradeError::InvalidRegex),
            };
            Ok((pass, verdict_text("Regular expression match: ", pass)))
        },
        GraderSpec::JsonFields { fields } => match answer_json {
            None => Err(GradeError::AnswerNotJson),
            Some(v) => {
                let m = missing_fields(v, fields);
                Ok(presence_text(&m, "The required JSON fields are present", "Missing JSON fields: "))
            },
        },
        GraderSpec::JsonEquals { expected } => match answer_json {
            None => Err(GradeError::AnswerNotJson),
            Some(v) => {
                let pass = json_equal(v, expected);
                Ok((pass, verdict_text("Expected JSON value match: ", pass)))
            },
        },
        GraderSpec::ExactLines { expected, ignore_order } => {
            let actual = nonblank_lines_of(answer);
            let pass = if *ignore_order {
                same_lines_in_any_order(&actual, expected)
            } else {
                same_lines(&actual, expected)
            };
            Ok((pass, verdict_text("Exact line match: ", pass)))
        },
    }
}

} // verus!
