//! The data transfer objects shared across the command surface, and the label that
//! tells how recently a learner was active.

use vstd::prelude::*;
use crate::text::{decimal_text, i64_text, lit, cat};

verus! {

#[derive(Clone, Debug)]
pub struct AccountDto {
    pub id: i64,
    pub display_name: String,
    pub account_type: String,
    pub entitlement_tier: String,
    pub status: String,
    pub failed_pin_attempts: i64,
    pub is_locked: bool,
    pub needs_checkup: bool,
    pub last_active_label: String,
}

#[derive(Clone, Debug)]
pub struct AccountSummaryDto {
    pub id: i64,
    pub display_name: String,
    pub account_type: String,
    pub status: String,
    pub needs_checkup: bool,
    pub last_active_label: String,
}

#[derive(Clone, Debug)]
pub struct PackInstallResultDto {
    pub pack_id: String,
    pub pack_version: String,
    pub install_path: String,
}

#[derive(Clone, Debug)]
pub struct PackSummaryDto {
    pub pack_id: String,
    pub pack_version: String,
    pub subject_code: String,
    pub status: String,
}

#[derive(Clone, Debug)]
pub struct CurriculumParseCandidateDto {
    pub id: i64,
    pub candidate_type: String,
    pub raw_label: String,
    pub normalized_label: Option<String>,
    pub confidence_score: i64,
    pub review_status: String,
}

#[derive(Clone, Debug)]
pub struct CurriculumReviewTaskDto {
    pub id: i64,
    pub candidate_id: Option<i64>,
    pub task_type: String,
    pub status: String,
    pub severity: String,
    pub notes: Option<String>,
}

#[derive(Clone, Debug)]
pub struct ParseCandidateCountDto {
    pub candidate_type: String,
    pub count: i64,
}

#[derive(Clone, Debug)]
pub struct TopicPackageSnapshotDto {
    pub topic_id: i64,
    pub topic_name: String,
    pub package_state: String,
    pub live_health_state: String,
    pub completeness_score: i64,
    pub quality_score: i64,
    pub evidence_score: i64,
    pub source_support_count: i64,
    pub publishable_artifact_count: i64,
    pub published_artifact_count: i64,
    pub missing_components: Vec<String>,
    pub recommended_jobs: Vec<String>,
}

#[derive(Clone, Debug)]
pub struct SubjectFoundryDashboardDto {
    pub subject_id: i64,
    pub subject_code: String,
    pub subject_name: String,
    pub source_upload_count: i64,
    pub pending_review_sources: i64,
    pub ready_publish_jobs: i64,
    pub published_jobs: i64,
    pub average_package_score: i64,
    pub weak_topic_count: i64,
    pub strong_topic_count: i64,
    pub topics: Vec<TopicPackageSnapshotDto>,
}

#[derive(Clone, Debug)]
pub struct FoundryJobDto {
    pub id: i64,
    pub job_type: String,
    pub trigger_type: String,
    pub target_type: String,
    pub target_id: i64,
    pub subject_id: Option<i64>,
    pub topic_id: Option<i64>,
    pub priority: i64,
    pub status: String,
    pub dependency_refs: Vec<String>,
    pub retry_count: i64,
    pub failure_reason: Option<String>,
}

#[derive(Clone, Debug)]
pub struct FoundryJobBoardDto {
    pub queued_count: i64,
    pub running_count: i64,
    pub blocked_count: i64,
    pub failed_count: i64,
    pub completed_count: i64,
    pub jobs: Vec<FoundryJobDto>,
}

#[derive(Clone, Debug)]
pub struct SessionSnapshotDto {
    pub session_id: i64,
    pub session_type: String,
    pub status: String,
    pub active_item_index: i64,
    pub item_count: usize,
}

#[derive(Clone, Debug)]
pub struct SessionSummaryDto {
    pub session_id: i64,
    pub accuracy_score: Option<i64>,
    pub answered_questions: i64,
    pub correct_questions: i64,
    pub status: String,
}

#[derive(Clone, Debug)]
pub struct ContrastPairSummaryDto {
    pub pair_id: i64,
    pub title: String,
    pub left_label: String,
    pub right_label: String,
    pub confusion_score: i64,
    pub recommended_mode: String,
}

#[derive(Clone, Debug)]
pub struct TrapSessionSnapshotDto {
    pub session_id: i64,
    pub mode: String,
    pub pair_title: String,
    pub left_label: String,
    pub right_label: String,
    pub round_count: usize,
    pub active_round_number: i64,
}

#[derive(Clone, Debug)]
pub struct TrapRoundResultDto {
    pub round_id: i64,
    pub round_number: i64,
    pub is_correct: bool,
    pub score_earned: i64,
    pub correct_choice_label: String,
    pub explanation_text: String,
    pub session_complete: bool,
}

#[derive(Clone, Debug)]
pub struct TrapReviewDto {
    pub session_id: i64,
    pub pair_title: String,
    pub mode: String,
    pub score: i64,
    pub accuracy_bp: i64,
    pub confusion_score: i64,
    pub round_count: usize,
}

#[derive(Clone, Debug)]
pub struct QuestionFamilyChoiceDto {
    pub family_id: i64,
    pub family_code: String,
    pub family_name: String,
    pub subject_id: i64,
    pub topic_id: Option<i64>,
    pub total_instances: i64,
    pub generated_instances: i64,
    pub fit_score: i64,
}

#[derive(Clone, Debug)]
pub struct QuestionGenerationRequestDto {
    pub id: i64,
    pub subject_id: i64,
    pub topic_id: Option<i64>,
    pub family_id: i64,
    pub source_question_id: Option<i64>,
    pub request_kind: String,
    pub variant_mode: String,
    pub requested_count: i64,
    pub status: String,
    pub rationale: Option<String>,
    pub generated_count: i64,
}

#[derive(Clone, Debug)]
pub struct GeneratedQuestionDraftDto {
    pub request_id: i64,
    pub source_question_id: i64,
    pub question_id: i64,
    pub family_id: Option<i64>,
    pub stem: String,
    pub question_format: String,
    pub difficulty_level: i64,
    pub estimated_time_seconds: i64,
    pub option_count: usize,
    pub variant_mode: String,
    pub transform_summary: String,
}

#[derive(Clone, Debug)]
pub struct QuestionLineageNodeDto {
    pub question_id: i64,
    pub family_id: Option<i64>,
    pub lineage_key: String,
    pub node_role: String,
    pub origin_kind: String,
}

#[derive(Clone, Debug)]
pub struct QuestionLineageEdgeDto {
    pub from_question_id: i64,
    pub to_question_id: i64,
    pub relation_type: String,
    pub transform_mode: Option<String>,
    pub rationale: Option<String>,
}

#[derive(Clone, Debug)]
pub struct QuestionLineageGraphDto {
    pub focus_question_id: i64,
    pub node_count: usize,
    pub edge_count: usize,
    pub nodes: Vec<QuestionLineageNodeDto>,
    pub edges: Vec<QuestionLineageEdgeDto>,
}

#[derive(Clone, Debug)]
pub struct QuestionFamilyHealthDto {
    pub family_id: i64,
    pub total_instances: i64,
    pub generated_instances: i64,
    pub active_instances: i64,
    pub recent_attempts: i64,
    pub recent_correct_attempts: i64,
    pub avg_response_time_ms: i64,
    pub misconception_hit_count: i64,
    pub freshness_score: i64,
    pub calibration_score: i64,
    pub quality_score: i64,
    pub health_status: String,
}

#[derive(Clone, Debug)]
pub struct DuplicateCheckResultDto {
    pub matched_question_id: Option<i64>,
    pub similarity_score: i64,
    pub is_exact_duplicate: bool,
    pub is_near_duplicate: bool,
}

#[derive(Clone, Debug)]
pub struct RelatedQuestionDto {
    pub question_id: i64,
    pub family_id: Option<i64>,
    pub stem: String,
    pub question_format: String,
    pub difficulty_level: i64,
    pub relation_type: String,
    pub similarity_score: i64,
    pub rationale: Option<String>,
}

/// How a learner's last activity reads, given the seconds elapsed since it (`None` when
/// the learner was never active): within a day is "today", else whole days away.
pub fn last_active_label(elapsed_seconds: Option<i64>) -> (r: String)
    ensures
        r@ == (match elapsed_seconds {
            None => "Never active"@,
            Some(s) => if s < 86400 { "Active today"@ } else { "Away "@ + decimal_text(s / 86400) + " days"@ },
        }),
{
    match elapsed_seconds {
        None => lit("Never active"),
        Some(s) => if s < 86400 {
            lit("Active today")
        } else {
            cat(cat(lit("Away "), i64_text(s / 86400).as_str()), " days")
        },
    }
}

} // verus!
