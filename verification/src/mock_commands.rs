//! Mock examinations: transfer objects, the defaults of a first mock, and which mock
//! the centre recommends.

use vstd::prelude::*;
use crate::error::CommandError;
use crate::text::{decimal_text, i64_text, lit, cat};

verus! {

#[derive(Clone, Debug)]
pub struct MockSessionDto {
    pub id: i64,
    pub subject_id: i64,
    pub mock_type: String,
    pub status: String,
    pub duration_minutes: i64,
    pub question_count: i64,
    pub answered_count: i64,
    pub time_remaining_seconds: Option<i64>,
    pub paper_year: Option<String>,
    pub blueprint_id: Option<i64>,
}

#[derive(Clone, Debug)]
pub struct MockAnswerResultDto {
    pub question_id: i64,
    pub was_correct: bool,
    pub answered_count: i64,
    pub remaining_count: i64,
    pub time_remaining_seconds: Option<i64>,
}

#[derive(Clone, Debug)]
pub struct MockQuestionReviewDto {
    pub question_id: i64,
    pub stem: String,
    pub selected_option_text: Option<String>,
    pub correct_option_text: Option<String>,
    pub explanation: Option<String>,
    pub was_correct: bool,
    pub topic_name: String,
    pub response_time_ms: Option<i64>,
}

#[derive(Clone, Debug)]
pub struct MockDeepDiagnosisDto {
    pub mock_session_id: i64,
    pub weakness_count: usize,
    pub strength_count: usize,
    pub broken_link_count: usize,
    pub misconception_hit_count: usize,
    pub predicted_score_bp: Option<i64>,
    pub pacing_label: String,
    pub action_count: usize,
}

/// The kinds of mock the centre offers, in the order it lists them.
pub open spec fn mock_types() -> Seq<Seq<char>> {
    seq!["forecast"@, "diagnostic"@, "remediation"@, "final_exam"@, "shock"@, "wisdom"@]
}

/// The kinds of mock on offer.
pub fn available_mock_types() -> (r: Vec<String>)
    ensures
        r.deep_view() == mock_types(),
{
    let mut v: Vec<String> = Vec::new();
    v.push(lit("forecast"));
    v.push(lit("diagnostic"));
    v.push(lit("remediation"));
    v.push(lit("final_exam"));
    v.push(lit("shock"));
    v.push(lit("wisdom"));
    assert(v.deep_view() =~= mock_types());
    v
}

/// The mock the centre recommends: a forecast mock once a forecast blueprint exists or
/// a mock has been completed, a diagnostic one before that.
pub fn recommended_mock_type(has_forecast_blueprint: bool, total_mocks_completed: i64) -> (r: Option<String>)
    ensures
        r matches Some(t) && t@ == (if !has_forecast_blueprint && total_mocks_completed == 0 {
            "diagnostic"@
        } else {
            "forecast"@
        }),
{
    if has_forecast_blueprint {
        Some(lit("forecast"))
    } else if total_mocks_completed == 0 {
        Some(lit("diagnostic"))
    } else {
        Some(lit("forecast"))
    }
}

/// What a learner's first mock is compiled with.
#[derive(Clone, Debug)]
pub struct FirstMockPlan {
    pub student_id: i64,
    pub subject_id: i64,
    pub duration_minutes: i64,
    pub question_count: i64,
    pub topic_ids: Vec<i64>,
    pub paper_year: Option<i64>,
    pub mock_type: Option<String>,
    pub blueprint_id: Option<i64>,
}

/// A first mock is only for a learner with no mock history; it is a one-hour diagnostic
/// of twenty questions over all topics.
pub fn plan_first_mock(student_id: i64, subject_id: i64, existing_sessions: usize) -> (r: Result<FirstMockPlan, CommandError>)
    ensures
        r is Ok <==> existing_sessions == 0,
        r matches Err(e) ==> e.code@ == "validation_error"@
            && e.message@ == "student already has mock history; use compile_mock instead"@,
        r matches Ok(p) ==> {
            &&& p.student_id == student_id
            &&& p.subject_id == subject_id
            &&& p.duration_minutes == 60
            &&& p.question_count == 20
            &&& p.topic_ids@.len() == 0
            &&& p.paper_year is None
            &&& p.mock_type matches Some(t) && t@ == "diagnostic"@
            &&& p.blueprint_id is None
        },
{
    if existing_sessions > 0 {
        return Err(CommandError::new("validation_error", lit("student already has mock history; use compile_mock instead")));
    }
    Ok(FirstMockPlan {
        student_id,
        subject_id,
        duration_minutes: 60,
        question_count: 20,
        topic_ids: Vec::new(),
        paper_year: None,
        mock_type: Some(lit("diagnostic")),
        blueprint_id: None,
    })
}

/// A question that is not part of a mock, with what the lookup reported.
pub fn mock_question_not_found(question_id: i64, mock_session_id: i64, detail: &str) -> (r: CommandError)
    ensures
        r.code@ == "not_found"@,
        r.message@ == "question "@ + decimal_text(question_id as int) + " not found in mock "@
            + decimal_text(mock_session_id as int) + ": "@ + detail@,
{
    let m = cat(cat(cat(cat(cat(lit("question "), i64_text(question_id).as_str()), " not found in mock "), i64_text(mock_session_id).as_str()), ": "), detail);
    CommandError::new("not_found", m)
}

} // verus!
