//! The student and parent product surfaces: what the coach tells each audience,
//! derived from the learner model, the coach's judgment and the reporting strategy.

use vstd::prelude::*;

use crate::coach_commands::{journey_state_key, journey_state_label, CoachActionType, CoachNextAction, LearnerJourneyState};
use crate::error::CommandError;
use crate::product_commands::{
    action, actions_view, card, cards_view, directive, directive_owned, directives_view, explanation, explanations_view, one_text,
    three_texts, two_texts, ActionRecommendationDto, ActionView, AudienceExplanationDto, CardView, CoachDirectiveDto,
    DirectiveView, ExplanationView, InsightCardDto,
};
use crate::text::{
    contains_text, decimal_text, has_part, i64_text, join_texts, joined, key_of, lower_of, normalize_key, text_eq,
    to_lower_ascii, usize_text,
};

verus! {

/// The directive type a coach action maps to.
pub open spec fn directive_type_name(a: CoachActionType) -> Seq<char> {
    match a {
        CoachActionType::ContinueOnboarding => "continue_onboarding"@,
        CoachActionType::SelectSubjects => "select_subjects"@,
        CoachActionType::ResolveContent => "resolve_content"@,
        CoachActionType::StartDiagnostic => "schedule_probe"@,
        CoachActionType::GeneratePlan => "build_plan"@,
        CoachActionType::StartTodayMission => "start_today_mission"@,
        CoachActionType::ResumeMission => "resume_session"@,
        CoachActionType::ReviewResults => "review_results"@,
        CoachActionType::StartRepair => "rescue_foundation_first"@,
        CoachActionType::AdjustPlan => "adjust_plan"@,
        CoachActionType::ViewOverview => "view_overview"@,
    }
}

/// The directive type a coach action becomes.
pub fn directive_type_for_action(a: CoachActionType) -> (r: String)
    ensures
        r@ == directive_type_name(a),
{
    match a {
        CoachActionType::ContinueOnboarding => "continue_onboarding",
        CoachActionType::SelectSubjects => "select_subjects",
        CoachActionType::ResolveContent => "resolve_content",
        CoachActionType::StartDiagnostic => "schedule_probe",
        CoachActionType::GeneratePlan => "build_plan",
        CoachActionType::StartTodayMission => "start_today_mission",
        CoachActionType::ResumeMission => "resume_session",
        CoachActionType::ReviewResults => "review_results",
        CoachActionType::StartRepair => "rescue_foundation_first",
        CoachActionType::AdjustPlan => "adjust_plan",
        CoachActionType::ViewOverview => "view_overview",
    }.to_string()
}

/// Repair and content resolution are urgent; everything else is of medium priority.
pub open spec fn action_priority_name(a: CoachActionType) -> Seq<char> {
    match a {
        CoachActionType::StartRepair | CoachActionType::ResolveContent => "high"@,
        _ => "medium"@,
    }
}

/// How urgent the directive for a coach action is.
pub fn directive_priority_for_state(a: CoachActionType) -> (r: String)
    ensures
        r@ == action_priority_name(a),
{
    match a {
        CoachActionType::StartRepair | CoachActionType::ResolveContent => "high".to_string(),
        _ => "medium".to_string(),
    }
}

/// Readiness bands that call for recovery before acceleration.
pub open spec fn fragile_band(band: Seq<char>) -> bool {
    band == "At Risk"@ || band == "Not Ready"@
}

/// Readiness bands that call for protection.
pub fn is_fragile_band(band: &str) -> (r: bool)
    ensures
        r == fragile_band(band@),
{
    text_eq(band, "At Risk") || text_eq(band, "Not Ready")
}

/// What the learner model knows that the surfaces speak of.
#[derive(Clone, Debug)]
pub struct LearnerTruthView {
    pub student_id: i64,
    pub student_name: String,
    pub overall_mastery_score: i64,
    pub pending_review_count: i64,
    pub due_memory_count: i64,
    /// The primary diagnosis of each recent diagnosis, most recent first.
    pub recent_diagnoses: Vec<String>,
    pub memory_summary_count: usize,
}

/// The coach's judgment of the learner.
#[derive(Clone, Debug)]
pub struct JudgmentView {
    pub independence_band: String,
    pub biggest_risk: String,
    pub next_best_move: String,
    pub judgment_confidence_score: i64,
    pub capability_review_count: usize,
}

/// The reporting layer's strategic reading of the learner.
#[derive(Clone, Debug)]
pub struct StrategyView {
    pub strategy_mode: String,
    pub priority_topics: Vec<String>,
    pub overall_readiness_score: i64,
}

/// How much evidence backs the learner model.
#[derive(Clone, Copy, Debug)]
pub struct EvidenceFabricView {
    pub evidence_record_count: usize,
    pub signal_count: usize,
}

pub open spec fn some_diagnosis_mentions(diagnoses: Seq<String>, word: Seq<char>) -> bool {
    exists|i: int| 0 <= i < diagnoses.len() && has_part(#[trigger] diagnoses[i]@, word)
}

/// Whether any diagnosis mentions the word.
pub fn any_diagnosis_mentions(diagnoses: &Vec<String>, word: &str) -> (r: bool)
    ensures
        r == some_diagnosis_mentions(diagnoses@, word@),
{
    let mut i: usize = 0;
    while i < diagnoses.len()
        invariant
            i <= diagnoses.len(),
            forall|k: int| 0 <= k < i ==> !has_part(#[trigger] diagnoses@[k]@, word@),
        decreases diagnoses.len() - i,
    {
        if contains_text(diagnoses[i].as_str(), word) {
            return true;
        }
        i = i + 1;
    }
    false
}

pub open spec fn student_directives_spec(
    truth: LearnerTruthView,
    readiness_band: Seq<char>,
    coach_state: LearnerJourneyState,
    next_action: CoachNextAction,
    judgment: JudgmentView,
) -> Seq<DirectiveView> {
    let d0 = seq![DirectiveView {
        directive_type: directive_type_name(next_action.action_type),
        audience: "student"@,
        title: next_action.title@,
        summary: next_action.subtitle@,
        priority: action_priority_name(next_action.action_type),
        primary_action: next_action.route@,
        supporting_signals: seq![
            "state:"@ + journey_state_key(coach_state),
            "independence:"@ + judgment.independence_band@,
        ],
    }];
    let d1 = if truth.pending_review_count > 0 {
        seq![DirectiveView {
            directive_type: "queue_review"@,
            audience: "student"@,
            title: "Resolve recent evidence before adding more work"@,
            summary: decimal_text(truth.pending_review_count as int)
                + " review items are still open, so the coach is protecting you from shallow progress."@,
            priority: "high"@,
            primary_action: "review_queue"@,
            supporting_signals: seq!["pending_review"@],
        }]
    } else { Seq::empty() };
    let d2 = if truth.due_memory_count > 0 {
        seq![DirectiveView {
            directive_type: "insert_reactivation_now"@,
            audience: "student"@,
            title: "Run a memory rescue block"@,
            summary: decimal_text(truth.due_memory_count as int)
                + " memory items are due, so the coach wants recall protection before new content."@,
            priority: "high"@,
            primary_action: "memory_rescue"@,
            supporting_signals: seq!["memory_due"@],
        }]
    } else { Seq::empty() };
    let d3 = if fragile_band(readiness_band) {
        seq![DirectiveView {
            directive_type: "show_fragility_warning"@,
            audience: "student"@,
            title: "Current readiness is still fragile"@,
            summary: readiness_band + " readiness means the coach is prioritizing recovery before acceleration."@,
            priority: "high"@,
            primary_action: "coach_hub"@,
            supporting_signals: seq!["readiness_gap"@],
        }]
    } else { Seq::empty() };
    let d4 = if has_part(lower_of(judgment.biggest_risk@), "foundation"@) {
        seq![DirectiveView {
            directive_type: "rescue_foundation_first"@,
            audience: "student"@,
            title: "Repair the base before pushing ahead"@,
            summary: judgment.biggest_risk@,
            priority: "high"@,
            primary_action: "repair_path"@,
            supporting_signals: seq!["foundation_risk"@],
        }]
    } else { Seq::empty() };
    let d5 = if some_diagnosis_mentions(truth.recent_diagnoses@, "confusion"@) {
        seq![DirectiveView {
            directive_type: "run_contrast_block"@,
            audience: "student"@,
            title: "Run a contrast drill"@,
            summary: "The coach has spotted interference-like errors and wants a clean discrimination block."@,
            priority: "medium"@,
            primary_action: "contrast_mode"@,
            supporting_signals: seq!["concept_confusion"@],
        }]
    } else { Seq::empty() };
    d0 + d1 + d2 + d3 + d4 + d5
}

/// The student's directives: the coach's next move first, then protective directives
/// for open reviews, due memory, fragile readiness, foundation risk and confusion.
pub fn build_student_directives(
    truth: &LearnerTruthView,
    readiness_band: &str,
    coach_state: LearnerJourneyState,
    next_action: &CoachNextAction,
    judgment: &JudgmentView,
) -> (r: Vec<CoachDirectiveDto>)
    ensures
        directives_view(r@) == student_directives_spec(*truth, readiness_band@, coach_state, *next_action, *judgment),
{
    let mut out: Vec<CoachDirectiveDto> = Vec::new();
    out.push(directive_owned(
        directive_type_for_action(next_action.action_type),
        "student",
        next_action.title.clone(),
        next_action.subtitle.clone(),
        directive_priority_for_state(next_action.action_type),
        next_action.route.clone(),
        two_texts(
            "state:".to_string().concat(journey_state_label(coach_state).as_str()),
            "independence:".to_string().concat(judgment.independence_band.as_str()),
        ),
    ));
    if truth.pending_review_count > 0 {
        out.push(directive(
            "queue_review",
            "student",
            "Resolve recent evidence before adding more work".to_string(),
            i64_text(truth.pending_review_count).concat(
                " review items are still open, so the coach is protecting you from shallow progress.",
            ),
            "high",
            "review_queue",
            one_text("pending_review"),
        ));
    }
    if truth.due_memory_count > 0 {
        out.push(directive(
            "insert_reactivation_now",
            "student",
            "Run a memory rescue block".to_string(),
            i64_text(truth.due_memory_count).concat(
                " memory items are due, so the coach wants recall protection before new content.",
            ),
            "high",
            "memory_rescue",
            one_text("memory_due"),
        ));
    }
    if is_fragile_band(readiness_band) {
        out.push(directive(
            "show_fragility_warning",
            "student",
            "Current readiness is still fragile".to_string(),
            readiness_band.to_string().concat(" readiness means the coach is prioritizing recovery before acceleration."),
            "high",
            "coach_hub",
            one_text("readiness_gap"),
        ));
    }
    let lowered = to_lower_ascii(judgment.biggest_risk.as_str());
    if contains_text(lowered.as_str(), "foundation") {
        out.push(directive(
            "rescue_foundation_first",
            "student",
            "Repair the base before pushing ahead".to_string(),
            judgment.biggest_risk.clone(),
            "high",
            "repair_path",
            one_text("foundation_risk"),
        ));
    }
    if any_diagnosis_mentions(&truth.recent_diagnoses, "confusion") {
        out.push(directive(
            "run_contrast_block",
            "student",
            "Run a contrast drill".to_string(),
            "The coach has spotted interference-like errors and wants a clean discrimination block.".to_string(),
            "medium",
            "contrast_mode",
            one_text("concept_confusion"),
        ));
    }
    assert(directives_view(out@) =~= student_directives_spec(*truth, readiness_band@, coach_state, *next_action, *judgment));
    out
}


/// The focus text of a strategy: its priority topics, or a default when there are none.
pub open spec fn strategy_focus(topics: Seq<Seq<char>>, fallback: Seq<char>) -> Seq<char> {
    if topics.len() == 0 { fallback } else { joined(topics, ", "@) }
}

/// The strategy's focus topics as a sentence part, or the fallback when there are none.
pub fn strategy_focus_text(topics: &Vec<String>, fallback: &str) -> (r: String)
    ensures
        r@ == strategy_focus(topics.deep_view(), fallback@),
{
    if topics.len() == 0 {
        fallback.to_string()
    } else {
        join_texts(topics, ", ")
    }
}

pub open spec fn student_cards_spec(
    truth: LearnerTruthView,
    readiness_band: Seq<char>,
    judgment: JudgmentView,
    strategy: Option<StrategyView>,
) -> Seq<CardView> {
    let base = seq![
        CardView {
            card_key: "readiness_snapshot"@,
            audience: "student"@,
            title: "Readiness snapshot"@,
            summary: "Your current readiness sits at `"@ + readiness_band
                + "` and the coach is optimizing the next move around that state."@,
            tone: "steady"@,
            metric_label: Some("overall_mastery_bp"@),
            metric_value: Some(truth.overall_mastery_score),
            tags: seq!["readiness"@, "coachhub"@],
        },
        CardView {
            card_key: "risk_translation"@,
            audience: "student"@,
            title: "What the coach thinks is most fragile"@,
            summary: judgment.biggest_risk@,
            tone: "protective"@,
            metric_label: Some("judgment_confidence_bp"@),
            metric_value: Some(judgment.judgment_confidence_score),
            tags: seq!["risk"@, "translation"@],
        },
        CardView {
            card_key: "evidence_depth"@,
            audience: "student"@,
            title: "Evidence depth"@,
            summary: "The learner model is currently backed by "@ + decimal_text(truth.recent_diagnoses@.len() as int)
                + " recent diagnoses and "@ + decimal_text(truth.memory_summary_count as int) + " memory signals."@,
            tone: "transparent"@,
            metric_label: Some("pending_review_count"@),
            metric_value: Some(truth.pending_review_count),
            tags: seq!["evidence"@],
        },
    ];
    match strategy {
        Some(s) => base.push(CardView {
            card_key: "strategy_mode"@,
            audience: "student"@,
            title: "Current coach mode"@,
            summary: "The reporting layer currently sees this learner in `"@ + s.strategy_mode@
                + "` mode with focus on "@ + strategy_focus(s.priority_topics.deep_view(), "stability and follow-through"@)
                + "."@,
            tone: "directive"@,
            metric_label: Some("overall_readiness_score"@),
            metric_value: Some(s.overall_readiness_score),
            tags: seq!["strategy"@],
        }),
        None => base,
    }
}

/// The student's insight cards: readiness, the biggest risk and evidence depth, plus
/// the coach mode when the reporting layer has a strategy.
pub fn build_student_insight_cards(
    truth: &LearnerTruthView,
    readiness_band: &str,
    judgment: &JudgmentView,
    strategy: Option<&StrategyView>,
) -> (r: Vec<InsightCardDto>)
    ensures
        cards_view(r@) == student_cards_spec(*truth, readiness_band@, *judgment, match strategy {
            Some(s) => Some(*s),
            None => None,
        }),
{
    let mut out: Vec<InsightCardDto> = Vec::new();
    out.push(card(
        "readiness_snapshot",
        "student",
        "Readiness snapshot",
        "Your current readiness sits at `".to_string().concat(readiness_band).concat(
            "` and the coach is optimizing the next move around that state.",
        ),
        "steady",
        "overall_mastery_bp",
        truth.overall_mastery_score,
        two_texts("readiness".to_string(), "coachhub".to_string()),
    ));
    out.push(card(
        "risk_translation",
        "student",
        "What the coach thinks is most fragile",
        judgment.biggest_risk.clone(),
        "protective",
        "judgment_confidence_bp",
        judgment.judgment_confidence_score,
        two_texts("risk".to_string(), "translation".to_string()),
    ));
    out.push(card(
        "evidence_depth",
        "student",
        "Evidence depth",
        "The learner model is currently backed by ".to_string().concat(usize_text(truth.recent_diagnoses.len()).as_str()).concat(
            " recent diagnoses and ",
        ).concat(usize_text(truth.memory_summary_count).as_str()).concat(" memory signals."),
        "transparent",
        "pending_review_count",
        truth.pending_review_count,
        one_text("evidence"),
    ));
    match strategy {
        Some(s) => {
            out.push(card(
                "strategy_mode",
                "student",
                "Current coach mode",
                "The reporting layer currently sees this learner in `".to_string().concat(s.strategy_mode.as_str()).concat(
                    "` mode with focus on ",
                ).concat(strategy_focus_text(&s.priority_topics, "stability and follow-through").as_str()).concat("."),
                "directive",
                "overall_readiness_score",
                s.overall_readiness_score,
                one_text("strategy"),
            ));
        },
        None => {},
    }
    assert(cards_view(out@) =~= student_cards_spec(*truth, readiness_band@, *judgment, match strategy {
        Some(s) => Some(*s),
        None => None,
    }));
    out
}

pub open spec fn student_actions_spec(
    truth: LearnerTruthView,
    next_action: CoachNextAction,
    judgment: JudgmentView,
    strategy: Option<StrategyView>,
) -> Seq<ActionView> {
    let a0 = seq![ActionView {
        recommendation_key: "primary_coach_move"@,
        audience: "student"@,
        label: next_action.title@,
        summary: next_action.subtitle@,
        route_key: next_action.route@,
        urgency: action_priority_name(next_action.action_type),
        rationale: judgment.next_best_move@,
    }];
    let a1 = if truth.due_memory_count > 0 {
        seq![ActionView {
            recommendation_key: "memory_rescue"@,
            audience: "student"@,
            label: "Run a short recall rescue"@,
            summary: "Use retrieval before more exposure so the coach does not build on forgetting."@,
            route_key: "memory_dashboard"@,
            urgency: "high"@,
            rationale: "Due memory evidence is already active."@,
        }]
    } else { Seq::empty() };
    let a2 = if truth.pending_review_count > 0 {
        seq![ActionView {
            recommendation_key: "review_recent_evidence"@,
            audience: "student"@,
            label: "Close the review loop"@,
            summary: "Review recent marked evidence so the model can update with cleaner confidence."@,
            route_key: "evidence_inbox"@,
            urgency: "high"@,
            rationale: "Pending review items are blocking clearer planning."@,
        }]
    } else { Seq::empty() };
    let a3 = match strategy {
        Some(s) => seq![ActionView {
            recommendation_key: "follow_strategy_mode"@,
            audience: "student"@,
            label: "Follow "@ + s.strategy_mode@ + " mode"@,
            summary: "The reporting layer has already translated the learner state into a clear strategic mode."@,
            route_key: "strategy_summary"@,
            urgency: "medium"@,
            rationale: "Priority topics: "@ + strategy_focus(s.priority_topics.deep_view(), "stability"@),
        }],
        None => Seq::empty(),
    };
    a0 + a1 + a2 + a3
}

/// The student's actions: the coach's move, then memory rescue, review and strategy
/// follow-through where they apply.
pub fn build_student_action_recommendations(
    truth: &LearnerTruthView,
    next_action: &CoachNextAction,
    judgment: &JudgmentView,
    strategy: Option<&StrategyView>,
) -> (r: Vec<ActionRecommendationDto>)
    ensures
        actions_view(r@) == student_actions_spec(*truth, *next_action, *judgment, match strategy {
            Some(s) => Some(*s),
            None => None,
        }),
{
    let mut out: Vec<ActionRecommendationDto> = Vec::new();
    let urgency = directive_priority_for_state(next_action.action_type);
    out.push(ActionRecommendationDto {
        recommendation_key: "primary_coach_move".to_string(),
        audience: "student".to_string(),
        label: next_action.title.clone(),
        summary: next_action.subtitle.clone(),
        route_key: next_action.route.clone(),
        urgency,
        rationale: judgment.next_best_move.clone(),
    });
    if truth.due_memory_count > 0 {
        out.push(action(
            "memory_rescue".to_string(),
            "student",
            "Run a short recall rescue".to_string(),
            "Use retrieval before more exposure so the coach does not build on forgetting.".to_string(),
            "memory_dashboard".to_string(),
            "high",
            "Due memory evidence is already active.".to_string(),
        ));
    }
    if truth.pending_review_count > 0 {
        out.push(action(
            "review_recent_evidence".to_string(),
            "student",
            "Close the review loop".to_string(),
            "Review recent marked evidence so the model can update with cleaner confidence.".to_string(),
            "evidence_inbox".to_string(),
            "high",
            "Pending review items are blocking clearer planning.".to_string(),
        ));
    }
    match strategy {
        Some(s) => {
            out.push(action(
                "follow_strategy_mode".to_string(),
                "student",
                "Follow ".to_string().concat(s.strategy_mode.as_str()).concat(" mode"),
                "The reporting layer has already translated the learner state into a clear strategic mode.".to_string(),
                "strategy_summary".to_string(),
                "medium",
                "Priority topics: ".to_string().concat(strategy_focus_text(&s.priority_topics, "stability").as_str()),
            ));
        },
        None => {},
    }
    assert(actions_view(out@) =~= student_actions_spec(*truth, *next_action, *judgment, match strategy {
        Some(s) => Some(*s),
        None => None,
    }));
    out
}

pub open spec fn student_explanations_spec(
    truth: LearnerTruthView,
    readiness_band: Seq<char>,
    judgment: JudgmentView,
    fabric: EvidenceFabricView,
) -> Seq<ExplanationView> {
    seq![
        ExplanationView {
            audience: "student"@,
            headline: "The coach is trying to protect real progress, not just activity."@,
            summary: "Your current state is `"@ + readiness_band + "`, with "@ + decimal_text(truth.pending_review_count as int)
                + " pending reviews and "@ + decimal_text(truth.due_memory_count as int)
                + " due memory checks, so the system is prioritizing stability over speed."@,
            supporting_points: seq![judgment.biggest_risk@, "Next best move: "@ + judgment.next_best_move@],
        },
        ExplanationView {
            audience: "parent"@,
            headline: "The system is translating learner evidence into a safer next step."@,
            summary: "The learner model currently has "@ + decimal_text(fabric.evidence_record_count as int)
                + " evidence records and is using that to avoid pushing fragile understanding too early."@,
            supporting_points: seq![
                "Parent outputs should stay translated rather than exposing raw diagnostics."@,
                "Current readiness band: "@ + readiness_band,
            ],
        },
        ExplanationView {
            audience: "admin"@,
            headline: "This surface is composed from the learner truth graph plus coach policy."@,
            summary: "Judgment confidence is "@ + decimal_text(judgment.judgment_confidence_score as int)
                + " bp and the active explanation is `"@ + judgment.next_best_move@ + "`."@,
            supporting_points: seq![
                "Signals available: "@ + decimal_text(fabric.signal_count as int),
                "Capability reviews: "@ + decimal_text(judgment.capability_review_count as int),
            ],
        },
    ]
}

/// How the student surface explains itself to the student, the parent and the admin.
pub fn build_student_audience_explanations(
    truth: &LearnerTruthView,
    readiness_band: &str,
    judgment: &JudgmentView,
    fabric: &EvidenceFabricView,
) -> (r: Vec<AudienceExplanationDto>)
    ensures
        explanations_view(r@) == student_explanations_spec(*truth, readiness_band@, *judgment, *fabric),
{
    let mut out: Vec<AudienceExplanationDto> = Vec::new();
    out.push(explanation(
        "student",
        "The coach is trying to protect real progress, not just activity.",
        "Your current state is `".to_string().concat(readiness_band).concat("`, with ").concat(
            i64_text(truth.pending_review_count).as_str(),
        ).concat(" pending reviews and ").concat(i64_text(truth.due_memory_count).as_str()).concat(
            " due memory checks, so the system is prioritizing stability over speed.",
        ),
        two_texts(
            judgment.biggest_risk.clone(),
            "Next best move: ".to_string().concat(judgment.next_best_move.as_str()),
        ),
    ));
    out.push(explanation(
        "parent",
        "The system is translating learner evidence into a safer next step.",
        "The learner model currently has ".to_string().concat(usize_text(fabric.evidence_record_count).as_str()).concat(
            " evidence records and is using that to avoid pushing fragile understanding too early.",
        ),
        two_texts(
            "Parent outputs should stay translated rather than exposing raw diagnostics.".to_string(),
            "Current readiness band: ".to_string().concat(readiness_band),
        ),
    ));
    out.push(explanation(
        "admin",
        "This surface is composed from the learner truth graph plus coach policy.",
        "Judgment confidence is ".to_string().concat(i64_text(judgment.judgment_confidence_score).as_str()).concat(
            " bp and the active explanation is `",
        ).concat(judgment.next_best_move.as_str()).concat("`."),
        two_texts(
            "Signals available: ".to_string().concat(usize_text(fabric.signal_count).as_str()),
            "Capability reviews: ".to_string().concat(usize_text(judgment.capability_review_count).as_str()),
        ),
    ));
    assert(explanations_view(out@) =~= student_explanations_spec(*truth, readiness_band@, *judgment, *fabric));
    out
}


/// A risk the parent layer surfaces for a child.
#[derive(Clone, Debug)]
pub struct ParentRiskView {
    pub title: String,
    pub severity: String,
}

/// The parent layer's summary of one linked child.
#[derive(Clone, Debug)]
pub struct ParentStudentView {
    pub student_id: i64,
    pub student_name: String,
    pub overall_readiness_band: String,
    pub weekly_memo: String,
    pub active_risks: Vec<ParentRiskView>,
    pub recommendations: Vec<String>,
    pub subject_summary_count: usize,
}

/// Picks the child a parent surface focuses on: none when no child is linked, the
/// requested child when it is linked (its first occurrence), the first child when none
/// is requested; a requested child that is not linked is an error.
pub fn select_parent_student(
    students: &Vec<ParentStudentView>,
    parent_id: i64,
    student_id: Option<i64>,
) -> (r: Result<Option<usize>, CommandError>)
    ensures
        students@.len() == 0 ==> r == Ok::<Option<usize>, CommandError>(None),
        students@.len() > 0 && student_id is None ==> r == Ok::<Option<usize>, CommandError>(Some(0usize)),
        students@.len() > 0 ==> (match student_id {
            Some(sid) => (match r {
            Ok(Some(i)) => i < students@.len() && students@[i as int].student_id == sid
                && forall|j: int| 0 <= j < i ==> students@[j].student_id != sid,
            Ok(None) => false,
            Err(e) => (forall|j: int| 0 <= j < students@.len() ==> students@[j].student_id != sid)
                && e.code@ == "not_found"@ && e.message@ == "student "@ + decimal_text(sid as int)
                + " is not linked to parent "@ + decimal_text(parent_id as int),
        }),
            None => true,
        }),
{
    if students.len() == 0 {
        return Ok(None);
    }
    match student_id {
        None => Ok(Some(0)),
        Some(sid) => {
            let mut i: usize = 0;
            while i < students.len()
                invariant
                    i <= students.len(),
                    students@.len() > 0,
                    student_id == Some(sid),
                    forall|j: int| 0 <= j < i ==> students@[j].student_id != sid,
                decreases students.len() - i,
            {
                if students[i].student_id == sid {
                    return Ok(Some(i));
                }
                i = i + 1;
            }
            let m = "student ".to_string().concat(i64_text(sid).as_str()).concat(" is not linked to parent ").concat(
                i64_text(parent_id).as_str(),
            );
            Err(CommandError::new("not_found", m))
        },
    }
}

pub open spec fn risk_titles(risks: Seq<ParentRiskView>) -> Seq<Seq<char>> {
    risks.map_values(|r: ParentRiskView| r.title@)
}

pub open spec fn risk_severities(risks: Seq<ParentRiskView>) -> Seq<Seq<char>> {
    risks.map_values(|r: ParentRiskView| r.severity@)
}

/// The titles (or descriptions) of the risks, in order.
pub fn collect_risk_texts(risks: &Vec<ParentRiskView>, titles: bool) -> (r: Vec<String>)
    ensures
        titles ==> r.deep_view() == risk_titles(risks@),
        !titles ==> r.deep_view() == risk_severities(risks@),
{
    let mut out: Vec<String> = Vec::new();
    let mut i: usize = 0;
    while i < risks.len()
        invariant
            i <= risks.len(),
            out@.len() == i,
            titles ==> out.deep_view() == risk_titles(risks@.take(i as int)),
            !titles ==> out.deep_view() == risk_severities(risks@.take(i as int)),
        decreases risks.len() - i,
    {
        let t = if titles { risks[i].title.clone() } else { risks[i].severity.clone() };
        let ghost old = out.deep_view();
        out.push(t);
        assert(risks@.take(i + 1) =~= risks@.take(i as int).push(risks@[i as int]));
        assert(out.deep_view() =~= old.push(t@));
        assert(titles ==> out.deep_view() =~= risk_titles(risks@.take(i + 1)));
        assert(!titles ==> out.deep_view() =~= risk_severities(risks@.take(i + 1)));
        i = i + 1;
    }
    assert(risks@.take(risks.len() as int) =~= risks@);
    out
}

pub open spec fn parent_priority(band: Seq<char>) -> Seq<char> {
    if fragile_band(band) { "high"@ } else { "medium"@ }
}

pub open spec fn parent_directives_spec(s: ParentStudentView) -> Seq<DirectiveView> {
    let d0 = DirectiveView {
        directive_type: "parent_attention_summary"@,
        audience: "parent"@,
        title: s.student_name@ + " needs translated oversight"@,
        summary: s.weekly_memo@,
        priority: parent_priority(s.overall_readiness_band@),
        primary_action: "parent_dashboard"@,
        supporting_signals: risk_titles(s.active_risks@),
    };
    let d1 = DirectiveView {
        directive_type: "parent_alert_candidate"@,
        audience: "parent"@,
        title: "A coach follow-through may need home support"@,
        summary: "The parent layer is highlighting only the issues that need practical support, not raw engine detail."@,
        priority: "high"@,
        primary_action: "parent_actions"@,
        supporting_signals: risk_severities(s.active_risks@),
    };
    if s.active_risks@.len() > 0 { seq![d0, d1] } else { seq![d0] }
}

/// The parent's directives about a child: an attention summary, and an alert when the
/// child has active risks.
pub fn build_parent_directives(s: &ParentStudentView) -> (r: Vec<CoachDirectiveDto>)
    ensures
        directives_view(r@) == parent_directives_spec(*s),
{
    let priority = if is_fragile_band(s.overall_readiness_band.as_str()) { "high" } else { "medium" };
    let mut out: Vec<CoachDirectiveDto> = Vec::new();
    out.push(directive(
        "parent_attention_summary",
        "parent",
        s.student_name.clone().concat(" needs translated oversight"),
        s.weekly_memo.clone(),
        priority,
        "parent_dashboard",
        collect_risk_texts(&s.active_risks, true),
    ));
    if s.active_risks.len() > 0 {
        out.push(directive(
            "parent_alert_candidate",
            "parent",
            "A coach follow-through may need home support".to_string(),
            "The parent layer is highlighting only the issues that need practical support, not raw engine detail.".to_string(),
            "high",
            "parent_actions",
            collect_risk_texts(&s.active_risks, false),
        ));
    }
    assert(directives_view(out@) =~= parent_directives_spec(*s));
    out
}

pub open spec fn parent_cards_spec(s: ParentStudentView) -> Seq<CardView> {
    seq![
        CardView {
            card_key: "parent_readiness"@,
            audience: "parent"@,
            title: "Child readiness"@,
            summary: s.student_name@ + " is currently in the `"@ + s.overall_readiness_band@ + "` readiness band."@,
            tone: "translated"@,
            metric_label: Some("subject_count"@),
            metric_value: Some(s.subject_summary_count as i64),
            tags: seq!["readiness"@],
        },
        CardView {
            card_key: "parent_risks"@,
            audience: "parent"@,
            title: "What needs attention"@,
            summary: if s.active_risks@.len() == 0 {
                "No active high-signal risks are currently demanding parent action."@
            } else {
                joined(risk_titles(s.active_risks@), "; "@)
            },
            tone: "careful"@,
            metric_label: Some("active_risk_count"@),
            metric_value: Some(s.active_risks@.len() as i64),
            tags: seq!["risk"@],
        },
    ]
}

/// The parent's cards about a child: readiness and what needs attention.
pub fn build_parent_insight_cards(s: &ParentStudentView) -> (r: Vec<InsightCardDto>)
    requires
        s.subject_summary_count <= i64::MAX,
        s.active_risks@.len() <= i64::MAX,
    ensures
        cards_view(r@) == parent_cards_spec(*s),
{
    let mut out: Vec<InsightCardDto> = Vec::new();
    out.push(card(
        "parent_readiness",
        "parent",
        "Child readiness",
        s.student_name.clone().concat(" is currently in the `").concat(s.overall_readiness_band.as_str()).concat(
            "` readiness band.",
        ),
        "translated",
        "subject_count",
        s.subject_summary_count as i64,
        one_text("readiness"),
    ));
    let summary = if s.active_risks.len() == 0 {
        "No active high-signal risks are currently demanding parent action.".to_string()
    } else {
        let titles = collect_risk_texts(&s.active_risks, true);
        join_texts(&titles, "; ")
    };
    out.push(card(
        "parent_risks",
        "parent",
        "What needs attention",
        summary,
        "careful",
        "active_risk_count",
        s.active_risks.len() as i64,
        one_text("risk"),
    ));
    assert(cards_view(out@) =~= parent_cards_spec(*s));
    out
}

pub open spec fn parent_recommendation_action(item: Seq<char>, band: Seq<char>) -> ActionView {
    ActionView {
        recommendation_key: key_of(item),
        audience: "parent"@,
        label: item,
        summary: item,
        route_key: "parent_dashboard"@,
        urgency: parent_priority(band),
        rationale: "The parent layer only surfaces translated actions that can improve follow-through."@,
    }
}

pub open spec fn stay_available_action() -> ActionView {
    ActionView {
        recommendation_key: "stay_available"@,
        audience: "parent"@,
        label: "Stay available for follow-through"@,
        summary: "The current signal is stable enough that support mainly means consistency and encouragement."@,
        route_key: "parent_dashboard"@,
        urgency: "low"@,
        rationale: "No strong parent intervention is currently required."@,
    }
}

pub open spec fn parent_actions_spec(s: ParentStudentView) -> Seq<ActionView> {
    if s.recommendations@.len() == 0 {
        seq![stay_available_action()]
    } else {
        s.recommendations@.map_values(|item: String| parent_recommendation_action(item@, s.overall_readiness_band@))
    }
}

/// One parent action per recommendation, keyed by its normalized text; a calm default
/// when there are none.
pub fn build_parent_action_recommendations(s: &ParentStudentView) -> (r: Vec<ActionRecommendationDto>)
    ensures
        actions_view(r@) == parent_actions_spec(*s),
{
    let urgent = is_fragile_band(s.overall_readiness_band.as_str());
    let mut out: Vec<ActionRecommendationDto> = Vec::new();
    let mut i: usize = 0;
    while i < s.recommendations.len()
        invariant
            i <= s.recommendations.len(),
            urgent == fragile_band(s.overall_readiness_band@),
            out@.len() == i,
            actions_view(out@) == s.recommendations@.take(i as int).map_values(
                |item: String| parent_recommendation_action(item@, s.overall_readiness_band@),
            ),
        decreases s.recommendations.len() - i,
    {
        let item = &s.recommendations[i];
        let a = action(
            normalize_key(item.as_str()),
            "parent",
            item.clone(),
            item.clone(),
            "parent_dashboard".to_string(),
            if urgent { "high" } else { "medium" },
            "The parent layer only surfaces translated actions that can improve follow-through.".to_string(),
        );
        let ghost old = out@;
        out.push(a);
        assert(s.recommendations@.take(i + 1) =~= s.recommendations@.take(i as int).push(s.recommendations@[i as int]));
        assert forall|j: int| 0 <= j < out@.len() implies actions_view(out@)[j] == s.recommendations@.take(i + 1).map_values(
            |item: String| parent_recommendation_action(item@, s.overall_readiness_band@),
        )[j] by {
            if j < i {
                assert(actions_view(old)[j] == s.recommendations@.take(i as int).map_values(
                    |item: String| parent_recommendation_action(item@, s.overall_readiness_band@),
                )[j]);
            }
        }
        assert(actions_view(out@) =~= s.recommendations@.take(i + 1).map_values(
            |item: String| parent_recommendation_action(item@, s.overall_readiness_band@),
        ));
        i = i + 1;
    }
    assert(s.recommendations@.take(s.recommendations.len() as int) =~= s.recommendations@);
    if out.len() == 0 {
        out.push(action(
            "stay_available".to_string(),
            "parent",
            "Stay available for follow-through".to_string(),
            "The current signal is stable enough that support mainly means consistency and encouragement.".to_string(),
            "parent_dashboard".to_string(),
            "low",
            "No strong parent intervention is currently required.".to_string(),
        ));
        assert(actions_view(out@) =~= seq![stay_available_action()]);
    }
    out
}

pub open spec fn parent_explanations_spec(s: ParentStudentView) -> Seq<ExplanationView> {
    seq![
        ExplanationView {
            audience: "parent"@,
            headline: "This summary is translated into practical parent language."@,
            summary: "The system is not showing raw engine metrics. It is showing what matters most for "@
                + s.student_name@ + " right now."@,
            supporting_points: seq![
                "Readiness band: "@ + s.overall_readiness_band@,
                "Weekly memo: "@ + s.weekly_memo@,
            ],
        },
        ExplanationView {
            audience: "student"@,
            headline: "The parent view is aligned with the student model."@,
            summary: "Parent explanations are intentionally gentler and more action-focused than the internal coach view."@,
            supporting_points: seq!["Students see direct coaching; parents see translated oversight."@],
        },
        ExplanationView {
            audience: "admin"@,
            headline: "Parent-facing translation stays filtered."@,
            summary: "This keeps the trust layer clean and prevents parents from receiving raw engine noise."@,
            supporting_points: seq!["Active parent-facing risks: "@ + decimal_text(s.active_risks@.len() as int)],
        },
    ]
}

/// How the parent surface explains itself to each audience.
pub fn build_parent_audience_explanations(s: &ParentStudentView) -> (r: Vec<AudienceExplanationDto>)
    ensures
        explanations_view(r@) == parent_explanations_spec(*s),
{
    let mut out: Vec<AudienceExplanationDto> = Vec::new();
    out.push(explanation(
        "parent",
        "This summary is translated into practical parent language.",
        "The system is not showing raw engine metrics. It is showing what matters most for ".to_string().concat(
            s.student_name.as_str(),
        ).concat(" right now."),
        two_texts(
            "Readiness band: ".to_string().concat(s.overall_readiness_band.as_str()),
            "Weekly memo: ".to_string().concat(s.weekly_memo.as_str()),
        ),
    ));
    out.push(explanation(
        "student",
        "The parent view is aligned with the student model.",
        "Parent explanations are intentionally gentler and more action-focused than the internal coach view.".to_string(),
        one_text("Students see direct coaching; parents see translated oversight."),
    ));
    out.push(explanation(
        "admin",
        "Parent-facing translation stays filtered.",
        "This keeps the trust layer clean and prevents parents from receiving raw engine noise.".to_string(),
        one_text_owned("Active parent-facing risks: ".to_string().concat(usize_text(s.active_risks.len()).as_str())),
    ));
    assert(explanations_view(out@) =~= parent_explanations_spec(*s));
    out
}

/// A list of one owned text.
pub fn one_text_owned(a: String) -> (r: Vec<String>)
    ensures
        r.deep_view() == seq![a@],
{
    let mut v: Vec<String> = Vec::new();
    v.push(a);
    assert(v.deep_view() =~= seq![a@]);
    v
}

/// The parent surface when no child is selected: a single directive to link a learner.
pub fn unlinked_parent_directives() -> (r: Vec<CoachDirectiveDto>)
    ensures
        directives_view(r@) == seq![DirectiveView {
            directive_type: "monitor_household"@,
            audience: "parent"@,
            title: "No linked student selected"@,
            summary: "Link a learner or choose a child to unlock translated oversight cards."@,
            priority: "medium"@,
            primary_action: "open_parent_dashboard"@,
            supporting_signals: seq!["parent_link_required"@],
        }],
{
    let mut out: Vec<CoachDirectiveDto> = Vec::new();
    out.push(directive(
        "monitor_household",
        "parent",
        "No linked student selected".to_string(),
        "Link a learner or choose a child to unlock translated oversight cards.".to_string(),
        "medium",
        "open_parent_dashboard",
        one_text("parent_link_required"),
    ));
    assert(directives_view(out@) =~= seq![DirectiveView {
        directive_type: "monitor_household"@,
        audience: "parent"@,
        title: "No linked student selected"@,
        summary: "Link a learner or choose a child to unlock translated oversight cards."@,
        priority: "medium"@,
        primary_action: "open_parent_dashboard"@,
        supporting_signals: seq!["parent_link_required"@],
    }]);
    out
}

/// The parent surface's explanation when no child is selected.
pub fn unlinked_parent_explanations() -> (r: Vec<AudienceExplanationDto>)
    ensures
        explanations_view(r@) == seq![ExplanationView {
            audience: "parent"@,
            headline: "Parent view is ready once a learner is linked."@,
            summary: "The product keeps the parent surface translated and action-focused instead of exposing raw engine records."@,
            supporting_points: seq!["Link a learner account to see readiness, risks, and next actions."@],
        }],
{
    let mut out: Vec<AudienceExplanationDto> = Vec::new();
    out.push(explanation(
        "parent",
        "Parent view is ready once a learner is linked.",
        "The product keeps the parent surface translated and action-focused instead of exposing raw engine records.".to_string(),
        one_text("Link a learner account to see readiness, risks, and next actions."),
    ));
    assert(explanations_view(out@) =~= seq![ExplanationView {
        audience: "parent"@,
        headline: "Parent view is ready once a learner is linked."@,
        summary: "The product keeps the parent surface translated and action-focused instead of exposing raw engine records."@,
        supporting_points: seq!["Link a learner account to see readiness, risks, and next actions."@],
    }]);
    out
}

/// The student surface always leads with the coach's next move, and always explains
/// itself to the parent as well as to the student.
pub proof fn student_surface_speaks_to_parents(
    truth: LearnerTruthView,
    readiness_band: Seq<char>,
    coach_state: LearnerJourneyState,
    next_action: CoachNextAction,
    judgment: JudgmentView,
    fabric: EvidenceFabricView,
)
    ensures
        student_directives_spec(truth, readiness_band, coach_state, next_action, judgment).len() > 0,
        student_directives_spec(truth, readiness_band, coach_state, next_action, judgment)[0].primary_action == next_action.route@,
        exists|i: int| 0 <= i < student_explanations_spec(truth, readiness_band, judgment, fabric).len()
            && (#[trigger] student_explanations_spec(truth, readiness_band, judgment, fabric)[i]).audience == "parent"@,
{
    assert(student_explanations_spec(truth, readiness_band, judgment, fabric)[1].audience == "parent"@);
}

} // verus!
