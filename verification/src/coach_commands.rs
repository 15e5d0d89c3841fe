//! Coach state shapes: the action and journey vocabularies, and the coach DTOs.

use vstd::prelude::*;

verus! {

#[derive(Clone, Debug)]
pub struct CoachStateDto {
    pub state: String,
    pub reason: String,
}

#[derive(Clone, Debug)]
pub struct CoachNextActionDto {
    pub state: String,
    pub action_type: String,
    pub title: String,
    pub subtitle: String,
    pub estimated_minutes: Option<i64>,
    pub route: String,
}

#[derive(Clone, Debug)]
pub struct ContentReadinessDto {
    pub status: String,
    pub subject_codes: Vec<String>,
    pub active_pack_count: i64,
    pub topic_count: i64,
    pub question_count: i64,
    pub reason: Option<String>,
}

#[derive(Clone, Debug)]
pub struct TopicCaseDto {
    pub topic_id: i64,
    pub topic_name: String,
    pub subject_code: String,
    pub priority_score: i64,
    pub mastery_score: i64,
    pub mastery_state: String,
    pub gap_score: i64,
    pub fragility_score: i64,
    pub memory_strength: i64,
    pub decay_risk: i64,
    pub evidence_count: i64,
    pub requires_probe: bool,
    pub intervention_mode: String,
    pub intervention_urgency: String,
    pub intervention_reason: String,
}

#[derive(Clone, Debug)]
pub struct StudentDashboardDto {
    pub student_name: String,
    pub exam_target: Option<String>,
    pub overall_readiness_band: String,
    pub subjects: Vec<SubjectSummaryDto>,
}

#[derive(Clone, Debug)]
pub struct SubjectSummaryDto {
    pub subject_id: i64,
    pub subject_name: String,
    pub readiness_band: String,
    pub mastered_topic_count: usize,
    pub weak_topic_count: usize,
    pub total_topic_count: usize,
}

/// The kinds of next move the coach can recommend.
#[derive(Clone, Copy, Debug, PartialEq, Eq)]
pub enum CoachActionType {
    ContinueOnboarding,
    SelectSubjects,
    ResolveContent,
    StartDiagnostic,
    GeneratePlan,
    StartTodayMission,
    ResumeMission,
    ReviewResults,
    StartRepair,
    AdjustPlan,
    ViewOverview,
}

/// The name an action type is reported under (its variant name).
pub open spec fn action_type_name(a: CoachActionType) -> Seq<char> {
    match a {
        CoachActionType::ContinueOnboarding => "ContinueOnboarding"@,
        CoachActionType::SelectSubjects => "SelectSubjects"@,
        CoachActionType::ResolveContent => "ResolveContent"@,
        CoachActionType::StartDiagnostic => "StartDiagnostic"@,
        CoachActionType::GeneratePlan => "GeneratePlan"@,
        CoachActionType::StartTodayMission => "StartTodayMission"@,
        CoachActionType::ResumeMission => "ResumeMission"@,
        CoachActionType::ReviewResults => "ReviewResults"@,
        CoachActionType::StartRepair => "StartRepair"@,
        CoachActionType::AdjustPlan => "AdjustPlan"@,
        CoachActionType::ViewOverview => "ViewOverview"@,
    }
}

/// The variant name of an action type, as the debug rendering shows it.
pub fn action_type_label(a: CoachActionType) -> (r: String)
    ensures
        r@ == action_type_name(a),
{
    match a {
        CoachActionType::ContinueOnboarding => "ContinueOnboarding".to_string(),
        CoachActionType::SelectSubjects => "SelectSubjects".to_string(),
        CoachActionType::ResolveContent => "ResolveContent".to_string(),
        CoachActionType::StartDiagnostic => "StartDiagnostic".to_string(),
        CoachActionType::GeneratePlan => "GeneratePlan".to_string(),
        CoachActionType::StartTodayMission => "StartTodayMission".to_string(),
        CoachActionType::ResumeMission => "ResumeMission".to_string(),
        CoachActionType::ReviewResults => "ReviewResults".to_string(),
        CoachActionType::StartRepair => "StartRepair".to_string(),
        CoachActionType::AdjustPlan => "AdjustPlan".to_string(),
        CoachActionType::ViewOverview => "ViewOverview".to_string(),
    }
}

/// Where a learner stands in the coaching journey.
#[derive(Clone, Copy, Debug, PartialEq, Eq)]
pub enum LearnerJourneyState {
    OnboardingRequired,
    SubjectSelectionRequired,
    ContentReadinessRequired,
    DiagnosticRequired,
    PlanGenerationRequired,
    ReadyForTodayMission,
    MissionInProgress,
    MissionReviewRequired,
    RepairRequired,
    BlockedOnTopic,
    PlanAdjustmentRequired,
    ReviewDay,
    ExamMode,
    StalledNoContent,
}

pub open spec fn journey_state_key(s: LearnerJourneyState) -> Seq<char> {
    match s {
        LearnerJourneyState::OnboardingRequired => "onboarding_required"@,
        LearnerJourneyState::SubjectSelectionRequired => "subject_selection_required"@,
        LearnerJourneyState::ContentReadinessRequired => "content_readiness_required"@,
        LearnerJourneyState::DiagnosticRequired => "diagnostic_required"@,
        LearnerJourneyState::PlanGenerationRequired => "plan_generation_required"@,
        LearnerJourneyState::ReadyForTodayMission => "ready_for_today_mission"@,
        LearnerJourneyState::MissionInProgress => "mission_in_progress"@,
        LearnerJourneyState::MissionReviewRequired => "mission_review_required"@,
        LearnerJourneyState::RepairRequired => "repair_required"@,
        LearnerJourneyState::BlockedOnTopic => "blocked_on_topic"@,
        LearnerJourneyState::PlanAdjustmentRequired => "plan_adjustment_required"@,
        LearnerJourneyState::ReviewDay => "review_day"@,
        LearnerJourneyState::ExamMode => "exam_mode"@,
        LearnerJourneyState::StalledNoContent => "stalled_no_content"@,
    }
}

/// The snake-case key of a journey state.
pub fn journey_state_label(s: LearnerJourneyState) -> (r: String)
    ensures
        r@ == journey_state_key(s),
{
    match s {
        LearnerJourneyState::OnboardingRequired => "onboarding_required".to_string(),
        LearnerJourneyState::SubjectSelectionRequired => "subject_selection_required".to_string(),
        LearnerJourneyState::ContentReadinessRequired => "content_readiness_required".to_string(),
        LearnerJourneyState::DiagnosticRequired => "diagnostic_required".to_string(),
        LearnerJourneyState::PlanGenerationRequired => "plan_generation_required".to_string(),
        LearnerJourneyState::ReadyForTodayMission => "ready_for_today_mission".to_string(),
        LearnerJourneyState::MissionInProgress => "mission_in_progress".to_string(),
        LearnerJourneyState::MissionReviewRequired => "mission_review_required".to_string(),
        LearnerJourneyState::RepairRequired => "repair_required".to_string(),
        LearnerJourneyState::BlockedOnTopic => "blocked_on_topic".to_string(),
        LearnerJourneyState::PlanAdjustmentRequired => "plan_adjustment_required".to_string(),
        LearnerJourneyState::ReviewDay => "review_day".to_string(),
        LearnerJourneyState::ExamMode => "exam_mode".to_string(),
        LearnerJourneyState::StalledNoContent => "stalled_no_content".to_string(),
    }
}

/// A coach recommendation as the command layer reads it.
#[derive(Clone, Debug)]
pub struct CoachNextAction {
    pub state: LearnerJourneyState,
    pub action_type: CoachActionType,
    pub title: String,
    pub subtitle: String,
    pub estimated_minutes: Option<i64>,
    pub route: String,
}

} // verus!
