//! Premium coaching transfer objects.

use vstd::prelude::*;

verus! {

#[derive(Clone, Debug)]
pub struct RiskFlagDto {
    pub id: i64,
    pub topic_id: Option<i64>,
    pub topic_name: Option<String>,
    pub severity: String,
    pub title: String,
    pub description: Option<String>,
    pub status: String,
}

#[derive(Clone, Debug)]
pub struct InterventionDto {
    pub id: i64,
    pub title: String,
    pub status: String,
    pub step_count: usize,
    pub risk_flag_id: Option<i64>,
}

#[derive(Clone, Debug)]
pub struct RiskDashboardDto {
    pub critical_count: i64,
    pub high_count: i64,
    pub medium_count: i64,
    pub low_count: i64,
    pub active_interventions: i64,
    pub flags: Vec<RiskFlagDto>,
    pub interventions: Vec<InterventionDto>,
}

#[derive(Clone, Debug)]
pub struct EntitlementSnapshotDto {
    pub tier: String,
    pub active_risk_flags: i64,
    pub active_interventions: i64,
    pub premium_features_enabled: Vec<String>,
}

#[derive(Clone, Debug)]
pub struct PremiumPriorityTopicDto {
    pub topic_id: i64,
    pub topic_name: String,
    pub mastery_score: i64,
    pub gap_score: i64,
    pub priority_score: i64,
    pub trend_state: String,
    pub is_blocked: bool,
    pub next_review_at: Option<String>,
}

#[derive(Clone, Debug)]
pub struct ReadinessProfileDto {
    pub id: i64,
    pub overall_readiness_bp: i64,
    pub overall_band: String,
    pub knowledge_solidity_bp: i64,
    pub speed_under_pressure_bp: i64,
    pub memory_stability_bp: i64,
    pub trajectory: Option<String>,
    pub interpretation: Option<String>,
    pub snapshot_date: String,
}

#[derive(Clone, Debug)]
pub struct MilestoneReviewDto {
    pub id: i64,
    pub review_type: String,
    pub readiness_band: String,
    pub overall_trend: String,
    pub executive_position: String,
    pub forecast_summary: Option<String>,
    pub parent_guidance: Option<String>,
    pub review_date: String,
}

#[derive(Clone, Debug)]
pub struct ConciergeResponseDto {
    pub id: i64,
    pub question_family: Option<String>,
    pub parent_question: String,
    pub direct_answer: String,
    pub expected_outcome: Option<String>,
    pub parent_action_needed: Option<String>,
    pub created_at: String,
}

#[derive(Clone, Debug)]
pub struct StrategyStateDto {
    pub primary_focus: Option<String>,
    pub secondary_focus: Option<String>,
    pub focus_reason: Option<String>,
    pub expected_outcome: Option<String>,
    pub mode_selection: Option<String>,
    pub next_review_date: Option<String>,
    pub last_shift_date: Option<String>,
}

#[derive(Clone, Debug)]
pub struct ParentCommunicationDto {
    pub id: i64,
    pub comm_type: String,
    pub priority: i64,
    pub title: String,
    pub body: String,
    pub read_at: Option<String>,
    pub created_at: String,
}

} // verus!
