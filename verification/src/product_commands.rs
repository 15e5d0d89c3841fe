//! The product surfaces: capability and semantics registries, content health, and the
//! translated directives, cards, actions and explanations each audience sees.

use vstd::prelude::*;

use crate::clock::now_rfc3339;
use crate::text::{decimal_text, i64_text};

verus! {

#[derive(Clone, Debug)]
pub struct CoachDirectiveDto {
    pub directive_type: String,
    pub audience: String,
    pub title: String,
    pub summary: String,
    pub priority: String,
    pub primary_action: String,
    pub supporting_signals: Vec<String>,
}

#[derive(Clone, Debug)]
pub struct InsightCardDto {
    pub card_key: String,
    pub audience: String,
    pub title: String,
    pub summary: String,
    pub tone: String,
    pub metric_label: Option<String>,
    pub metric_value: Option<i64>,
    pub tags: Vec<String>,
}

#[derive(Clone, Debug)]
pub struct ActionRecommendationDto {
    pub recommendation_key: String,
    pub audience: String,
    pub label: String,
    pub summary: String,
    pub route_key: String,
    pub urgency: String,
    pub rationale: String,
}

#[derive(Clone, Debug)]
pub struct AudienceExplanationDto {
    pub audience: String,
    pub headline: String,
    pub summary: String,
    pub supporting_points: Vec<String>,
}

#[derive(Clone, Debug)]
pub struct CapabilityRegistryEntryDto {
    pub signal_key: String,
    pub capability_key: String,
    pub tool_key: String,
    pub tool_label: String,
    pub route_key: String,
    pub intended_audience: String,
    pub explanation: String,
}

#[derive(Clone, Debug)]
pub struct CapabilityRegistryDto {
    pub generated_at: String,
    pub mappings: Vec<CapabilityRegistryEntryDto>,
}

#[derive(Clone, Debug)]
pub struct SemanticBandDto {
    pub registry_key: String,
    pub label: String,
    pub min_bp: Option<i64>,
    pub max_bp: Option<i64>,
    pub explanation: String,
}

#[derive(Clone, Debug)]
pub struct EvidenceFreshnessRuleDto {
    pub label: String,
    pub min_days: i64,
    pub max_days: Option<i64>,
    pub explanation: String,
}

#[derive(Clone, Debug)]
pub struct ContentHealthTopicIssueDto {
    pub topic_id: i64,
    pub topic_name: String,
    pub average_quality_bp: i64,
    pub evaluation_run_count: i64,
    pub severity: String,
}

#[derive(Clone, Debug)]
pub struct ContentHealthReadModelDto {
    pub generated_at: String,
    pub source_count: i64,
    pub stale_source_count: i64,
    pub overdue_source_review_count: i64,
    pub active_mission_count: i64,
    pub mission_review_required_count: i64,
    pub blocked_publish_count: i64,
    pub preview_publish_count: i64,
    pub average_quality_bp: i64,
    pub low_quality_topics: Vec<ContentHealthTopicIssueDto>,
    pub action_recommendations: Vec<ActionRecommendationDto>,
}

#[derive(Clone, Debug)]
pub struct ManagedEntitlementAccountDto {
    pub account_id: i64,
    pub display_name: String,
    pub account_type: String,
    pub entitlement_tier: String,
    pub status: String,
    pub last_active_at: Option<String>,
    pub linked_student_ids: Vec<i64>,
    pub feature_unlocks: Vec<String>,
}

#[derive(Clone, Debug)]
pub struct AcademicVaultFileDto {
    pub file_id: i64,
    pub file_name: String,
    pub file_kind: String,
    pub document_role: Option<String>,
    pub document_origin: Option<String>,
    pub ocr_status: String,
    pub layout_status: String,
    pub layout_kind: Option<String>,
    pub detected_topics: Vec<String>,
    pub question_patterns: Vec<String>,
    pub review_reasons: Vec<String>,
}

#[derive(Clone, Debug)]
pub struct AcademicVaultBundleDto {
    pub bundle_id: i64,
    pub title: String,
    pub status: String,
    pub created_at: String,
    pub updated_at: String,
    pub confirmation_state: String,
    pub coach_application_status: String,
    pub review_priority: String,
    pub bundle_kind: String,
    pub shared_promotion_status: Option<String>,
    pub detected_subjects: Vec<String>,
    pub detected_topics: Vec<String>,
    pub weakness_signals: Vec<String>,
    pub recommended_actions: Vec<String>,
    pub summary_points: Vec<String>,
    pub files: Vec<AcademicVaultFileDto>,
}

#[derive(Clone, Debug)]
pub struct PersonalAcademicVaultDto {
    pub student_id: i64,
    pub student_name: String,
    pub generated_at: String,
    pub active_topics: Vec<String>,
    pub recurring_mistake_signals: Vec<String>,
    pub teacher_style_signals: Vec<String>,
    pub urgent_review_bundle_count: i64,
    pub ocr_attention_count: i64,
    pub pending_shared_promotion_count: i64,
    pub bundles: Vec<AcademicVaultBundleDto>,
}

#[derive(Clone, Debug)]
pub struct ARealGuidanceEventDto {
    pub student_id: Option<i64>,
    pub student_name: Option<String>,
    pub headline: String,
    pub summary: String,
    pub route_key: String,
    pub created_at: String,
}

#[derive(Clone, Debug)]
pub struct ARealSurfaceDto {
    pub student_id: i64,
    pub student_name: String,
    pub generated_at: String,
    pub current_mode: String,
    pub tone_style: String,
    pub motivation_style: String,
    pub urgency_style: String,
    pub explanation_style: String,
    pub headline: String,
    pub summary: String,
    pub next_route_key: String,
    pub active_signals: Vec<String>,
    pub upload_context: Vec<String>,
    pub recommended_actions: Vec<String>,
    pub recent_guidance: Vec<ARealGuidanceEventDto>,
}

#[derive(Clone, Debug)]
pub struct ARealProfileInputDto {
    pub student_id: i64,
    pub tone_style: Option<String>,
    pub motivation_style: Option<String>,
    pub urgency_style: Option<String>,
    pub explanation_style: Option<String>,
    pub narrative_enabled: Option<bool>,
}

#[derive(Clone, Debug)]
pub struct ARealProfileDto {
    pub student_id: i64,
    pub tone_style: String,
    pub motivation_style: String,
    pub urgency_style: String,
    pub explanation_style: String,
    pub narrative_enabled: bool,
    pub updated_at: String,
}

#[derive(Clone, Debug)]
pub struct SourceGovernanceObjectDto {
    pub source_upload_id: i64,
    pub title: String,
    pub source_kind: String,
    pub source_status: String,
    pub parse_status_detail: Option<String>,
    pub source_tier: Option<String>,
    pub trust_score_bp: i64,
    pub stale_flag: bool,
    pub review_due_at: Option<String>,
    pub unresolved_review_count: i64,
    pub publish_decision_count: i64,
    pub last_governance_note: Option<String>,
}

#[derive(Clone, Debug)]
pub struct OcrRecoveryObjectDto {
    pub bundle_id: i64,
    pub student_id: i64,
    pub student_name: String,
    pub file_id: i64,
    pub file_name: String,
    pub document_role: Option<String>,
    pub ocr_status: String,
    pub layout_status: String,
    pub layout_kind: Option<String>,
    pub review_priority: String,
    pub review_reasons: Vec<String>,
}

/// The abstract content of a directive.
pub struct DirectiveView {
    pub directive_type: Seq<char>,
    pub audience: Seq<char>,
    pub title: Seq<char>,
    pub summary: Seq<char>,
    pub priority: Seq<char>,
    pub primary_action: Seq<char>,
    pub supporting_signals: Seq<Seq<char>>,
}

impl View for CoachDirectiveDto {
    type V = DirectiveView;

    open spec fn view(&self) -> DirectiveView {
        DirectiveView {
            directive_type: self.directive_type@,
            audience: self.audience@,
            title: self.title@,
            summary: self.summary@,
            priority: self.priority@,
            primary_action: self.primary_action@,
            supporting_signals: self.supporting_signals.deep_view(),
        }
    }
}

/// The abstract content of an insight card.
pub struct CardView {
    pub card_key: Seq<char>,
    pub audience: Seq<char>,
    pub title: Seq<char>,
    pub summary: Seq<char>,
    pub tone: Seq<char>,
    pub metric_label: Option<Seq<char>>,
    pub metric_value: Option<i64>,
    pub tags: Seq<Seq<char>>,
}

impl View for InsightCardDto {
    type V = CardView;

    open spec fn view(&self) -> CardView {
        CardView {
            card_key: self.card_key@,
            audience: self.audience@,
            title: self.title@,
            summary: self.summary@,
            tone: self.tone@,
            metric_label: match self.metric_label {
                Some(l) => Some(l@),
                None => None,
            },
            metric_value: self.metric_value,
            tags: self.tags.deep_view(),
        }
    }
}

/// The abstract content of an action recommendation.
pub struct ActionView {
    pub recommendation_key: Seq<char>,
    pub audience: Seq<char>,
    pub label: Seq<char>,
    pub summary: Seq<char>,
    pub route_key: Seq<char>,
    pub urgency: Seq<char>,
    pub rationale: Seq<char>,
}

impl View for ActionRecommendationDto {
    type V = ActionView;

    open spec fn view(&self) -> ActionView {
        ActionView {
            recommendation_key: self.recommendation_key@,
            audience: self.audience@,
            label: self.label@,
            summary: self.summary@,
            route_key: self.route_key@,
            urgency: self.urgency@,
            rationale: self.rationale@,
        }
    }
}

/// The abstract content of an audience explanation.
pub struct ExplanationView {
    pub audience: Seq<char>,
    pub headline: Seq<char>,
    pub summary: Seq<char>,
    pub supporting_points: Seq<Seq<char>>,
}

impl View for AudienceExplanationDto {
    type V = ExplanationView;

    open spec fn view(&self) -> ExplanationView {
        ExplanationView {
            audience: self.audience@,
            headline: self.headline@,
            summary: self.summary@,
            supporting_points: self.supporting_points.deep_view(),
        }
    }
}

pub open spec fn directives_view(v: Seq<CoachDirectiveDto>) -> Seq<DirectiveView> {
    v.map_values(|d: CoachDirectiveDto| d@)
}

pub open spec fn cards_view(v: Seq<InsightCardDto>) -> Seq<CardView> {
    v.map_values(|d: InsightCardDto| d@)
}

pub open spec fn actions_view(v: Seq<ActionRecommendationDto>) -> Seq<ActionView> {
    v.map_values(|d: ActionRecommendationDto| d@)
}

pub open spec fn explanations_view(v: Seq<AudienceExplanationDto>) -> Seq<ExplanationView> {
    v.map_values(|d: AudienceExplanationDto| d@)
}

/// A coach directive from its parts.
pub fn directive(
    directive_type: &str,
    audience: &str,
    title: String,
    summary: String,
    priority: &str,
    primary_action: &str,
    supporting_signals: Vec<String>,
) -> (r: CoachDirectiveDto)
    ensures
        r@ == (DirectiveView {
            directive_type: directive_type@,
            audience: audience@,
            title: title@,
            summary: summary@,
            priority: priority@,
            primary_action: primary_action@,
            supporting_signals: supporting_signals.deep_view(),
        }),
{
    CoachDirectiveDto {
        directive_type: directive_type.to_string(),
        audience: audience.to_string(),
        title,
        summary,
        priority: priority.to_string(),
        primary_action: primary_action.to_string(),
        supporting_signals,
    }
}

/// A coach directive whose headline is already an owned text.
pub fn directive_owned(
    directive_type: String,
    audience: &str,
    title: String,
    summary: String,
    priority: String,
    primary_action: String,
    supporting_signals: Vec<String>,
) -> (r: CoachDirectiveDto)
    ensures
        r@ == (DirectiveView {
            directive_type: directive_type@,
            audience: audience@,
            title: title@,
            summary: summary@,
            priority: priority@,
            primary_action: primary_action@,
            supporting_signals: supporting_signals.deep_view(),
        }),
{
    CoachDirectiveDto {
        directive_type,
        audience: audience.to_string(),
        title,
        summary,
        priority,
        primary_action,
        supporting_signals,
    }
}

/// An insight card from its parts.
pub fn card(
    card_key: &str,
    audience: &str,
    title: &str,
    summary: String,
    tone: &str,
    metric_label: &str,
    metric_value: i64,
    tags: Vec<String>,
) -> (r: InsightCardDto)
    ensures
        r@ == (CardView {
            card_key: card_key@,
            audience: audience@,
            title: title@,
            summary: summary@,
            tone: tone@,
            metric_label: Some(metric_label@),
            metric_value: Some(metric_value),
            tags: tags.deep_view(),
        }),
{
    InsightCardDto {
        card_key: card_key.to_string(),
        audience: audience.to_string(),
        title: title.to_string(),
        summary,
        tone: tone.to_string(),
        metric_label: Some(metric_label.to_string()),
        metric_value: Some(metric_value),
        tags,
    }
}

/// An action recommendation from its parts.
pub fn action(
    recommendation_key: String,
    audience: &str,
    label: String,
    summary: String,
    route_key: String,
    urgency: &str,
    rationale: String,
) -> (r: ActionRecommendationDto)
    ensures
        r@ == (ActionView {
            recommendation_key: recommendation_key@,
            audience: audience@,
            label: label@,
            summary: summary@,
            route_key: route_key@,
            urgency: urgency@,
            rationale: rationale@,
        }),
{
    ActionRecommendationDto {
        recommendation_key,
        audience: audience.to_string(),
        label,
        summary,
        route_key,
        urgency: urgency.to_string(),
        rationale,
    }
}

/// An audience explanation from its parts.
pub fn explanation(audience: &str, headline: &str, summary: String, supporting_points: Vec<String>) -> (r: AudienceExplanationDto)
    ensures
        r@ == (ExplanationView {
            audience: audience@,
            headline: headline@,
            summary: summary@,
            supporting_points: supporting_points.deep_view(),
        }),
{
    AudienceExplanationDto {
        audience: audience.to_string(),
        headline: headline.to_string(),
        summary,
        supporting_points,
    }
}

/// A list of one text.
pub fn one_text(a: &str) -> (r: Vec<String>)
    ensures
        r.deep_view() == seq![a@],
{
    let mut v: Vec<String> = Vec::new();
    v.push(a.to_string());
    assert(v.deep_view() =~= seq![a@]);
    v
}

/// A list of two texts.
pub fn two_texts(a: String, b: String) -> (r: Vec<String>)
    ensures
        r.deep_view() == seq![a@, b@],
{
    let mut v: Vec<String> = Vec::new();
    v.push(a);
    v.push(b);
    assert(v.deep_view() =~= seq![a@, b@]);
    v
}

/// A list of three texts.
pub fn three_texts(a: String, b: String, c: String) -> (r: Vec<String>)
    ensures
        r.deep_view() == seq![a@, b@, c@],
{
    let mut v: Vec<String> = Vec::new();
    v.push(a);
    v.push(b);
    v.push(c);
    assert(v.deep_view() =~= seq![a@, b@, c@]);
    v
}


/// The abstract content of a capability mapping.
pub struct CapabilityView {
    pub signal_key: Seq<char>,
    pub capability_key: Seq<char>,
    pub tool_key: Seq<char>,
    pub tool_label: Seq<char>,
    pub route_key: Seq<char>,
    pub intended_audience: Seq<char>,
    pub explanation: Seq<char>,
}

impl View for CapabilityRegistryEntryDto {
    type V = CapabilityView;

    open spec fn view(&self) -> CapabilityView {
        CapabilityView {
            signal_key: self.signal_key@,
            capability_key: self.capability_key@,
            tool_key: self.tool_key@,
            tool_label: self.tool_label@,
            route_key: self.route_key@,
            intended_audience: self.intended_audience@,
            explanation: self.explanation@,
        }
    }
}

/// The registry that maps learner signals to the capability and tool that address them.
pub open spec fn capability_registry_spec() -> Seq<CapabilityView> {
    seq![
        CapabilityView {
            signal_key: "knowledge_gap"@,
            capability_key: "repair_foundation"@,
            tool_key: "teach_mode"@,
            tool_label: "Teach mode and repair lesson"@,
            route_key: "teach_mode"@,
            intended_audience: "student"@,
            explanation: "Route clean knowledge gaps into direct explanation and structured repair instead of random extra practice."@,
        },
        CapabilityView {
            signal_key: "conceptual_confusion"@,
            capability_key: "disambiguate_similar_concepts"@,
            tool_key: "contrast_mode"@,
            tool_label: "Contrast drill / Traps mode"@,
            route_key: "contrast_mode"@,
            intended_audience: "student"@,
            explanation: "Confusion states should map to contrast-first tools that separate nearby concepts before speed work resumes."@,
        },
        CapabilityView {
            signal_key: "recognition_failure"@,
            capability_key: "rebuild_recall_path"@,
            tool_key: "memory_rescue"@,
            tool_label: "Memory rescue and recall checks"@,
            route_key: "memory_dashboard"@,
            intended_audience: "student"@,
            explanation: "Recognition-only strength should trigger recall-oriented rescue rather than more recognition practice."@,
        },
        CapabilityView {
            signal_key: "pressure_breakdown"@,
            capability_key: "stabilize_under_time"@,
            tool_key: "timed_ladder"@,
            tool_label: "Timed ladder and mock pressure probes"@,
            route_key: "mock_centre"@,
            intended_audience: "student"@,
            explanation: "Pressure issues should map into controlled timing and resilience probes instead of more untimed comfort work."@,
        },
        CapabilityView {
            signal_key: "expression_weakness"@,
            capability_key: "upgrade_written_method"@,
            tool_key: "answer_construction_lab"@,
            tool_label: "Answer Construction Lab"@,
            route_key: "answer_construction"@,
            intended_audience: "student"@,
            explanation: "Expression problems need structured written-response coaching, not just more multiple choice."@,
        },
        CapabilityView {
            signal_key: "low_confidence_evidence"@,
            capability_key: "verify_uploaded_evidence"@,
            tool_key: "evidence_inbox"@,
            tool_label: "Evidence Inbox and confirmation flow"@,
            route_key: "evidence_inbox"@,
            intended_audience: "coach"@,
            explanation: "Weak evidence confidence should map to confirmation and review tools before major plan changes are committed."@,
        },
        CapabilityView {
            signal_key: "readiness_gap"@,
            capability_key: "rebalance_plan"@,
            tool_key: "weekly_planner"@,
            tool_label: "Weekly plan generator"@,
            route_key: "weekly_plan"@,
            intended_audience: "student"@,
            explanation: "Readiness gaps should translate into plan composition changes that target the missing component, not generic harder work."@,
        },
        CapabilityView {
            signal_key: "content_governance"@,
            capability_key: "protect_trusted_content"@,
            tool_key: "content_health"@,
            tool_label: "Content health and publish governance"@,
            route_key: "content_health"@,
            intended_audience: "admin"@,
            explanation: "Governance signals should route into source policy, evaluation, and publish-decision tooling rather than student-facing flows."@,
        },
    ]
}

fn capability_entry(
    signal_key: &str,
    capability_key: &str,
    tool_key: &str,
    tool_label: &str,
    route_key: &str,
    intended_audience: &str,
    explanation: &str,
) -> (r: CapabilityRegistryEntryDto)
    ensures
        r@ == (CapabilityView {
            signal_key: signal_key@,
            capability_key: capability_key@,
            tool_key: tool_key@,
            tool_label: tool_label@,
            route_key: route_key@,
            intended_audience: intended_audience@,
            explanation: explanation@,
        }),
{
    CapabilityRegistryEntryDto {
        signal_key: signal_key.to_string(),
        capability_key: capability_key.to_string(),
        tool_key: tool_key.to_string(),
        tool_label: tool_label.to_string(),
        route_key: route_key.to_string(),
        intended_audience: intended_audience.to_string(),
        explanation: explanation.to_string(),
    }
}

/// The signal-to-tool mappings of the product.
pub fn build_capability_registry() -> (r: Vec<CapabilityRegistryEntryDto>)
    ensures
        r@.map_values(|e: CapabilityRegistryEntryDto| e@) == capability_registry_spec(),
{
    let mut out: Vec<CapabilityRegistryEntryDto> = Vec::new();
    out.push(capability_entry(
        "knowledge_gap",
        "repair_foundation",
        "teach_mode",
        "Teach mode and repair lesson",
        "teach_mode",
        "student",
        "Route clean knowledge gaps into direct explanation and structured repair instead of random extra practice.",
    ));
    out.push(capability_entry(
        "conceptual_confusion",
        "disambiguate_similar_concepts",
        "contrast_mode",
        "Contrast drill / Traps mode",
        "contrast_mode",
        "student",
        "Confusion states should map to contrast-first tools that separate nearby concepts before speed work resumes.",
    ));
    out.push(capability_entry(
        "recognition_failure",
        "rebuild_recall_path",
        "memory_rescue",
        "Memory rescue and recall checks",
        "memory_dashboard",
        "student",
        "Recognition-only strength should trigger recall-oriented rescue rather than more recognition practice.",
    ));
    out.push(capability_entry(
        "pressure_breakdown",
        "stabilize_under_time",
        "timed_ladder",
        "Timed ladder and mock pressure probes",
        "mock_centre",
        "student",
        "Pressure issues should map into controlled timing and resilience probes instead of more untimed comfort work.",
    ));
    out.push(capability_entry(
        "expression_weakness",
        "upgrade_written_method",
        "answer_construction_lab",
        "Answer Construction Lab",
        "answer_construction",
        "student",
        "Expression problems need structured written-response coaching, not just more multiple choice.",
    ));
    out.push(capability_entry(
        "low_confidence_evidence",
        "verify_uploaded_evidence",
        "evidence_inbox",
        "Evidence Inbox and confirmation flow",
        "evidence_inbox",
        "coach",
        "Weak evidence confidence should map to confirmation and review tools before major plan changes are committed.",
    ));
    out.push(capability_entry(
        "readiness_gap",
        "rebalance_plan",
        "weekly_planner",
        "Weekly plan generator",
        "weekly_plan",
        "student",
        "Readiness gaps should translate into plan composition changes that target the missing component, not generic harder work.",
    ));
    out.push(capability_entry(
        "content_governance",
        "protect_trusted_content",
        "content_health",
        "Content health and publish governance",
        "content_health",
        "admin",
        "Governance signals should route into source policy, evaluation, and publish-decision tooling rather than student-facing flows.",
    ));
    assert(out@.map_values(|e: CapabilityRegistryEntryDto| e@) =~= capability_registry_spec());
    out
}

/// The registry stamped with the time it was generated.
pub fn get_capability_registry() -> (r: Result<CapabilityRegistryDto, crate::error::CommandError>)
    ensures
        r matches Ok(d) && d.mappings@.map_values(|e: CapabilityRegistryEntryDto| e@) == capability_registry_spec()
            && crate::clock::utc_timestamp_text(d.generated_at@),
{
    Ok(CapabilityRegistryDto { generated_at: now_rfc3339(), mappings: build_capability_registry() })
}


/// The abstract content of a semantic band.
pub struct BandView {
    pub registry_key: Seq<char>,
    pub label: Seq<char>,
    pub min_bp: Option<i64>,
    pub max_bp: Option<i64>,
    pub explanation: Seq<char>,
}

impl View for SemanticBandDto {
    type V = BandView;

    open spec fn view(&self) -> BandView {
        BandView {
            registry_key: self.registry_key@,
            label: self.label@,
            min_bp: self.min_bp,
            max_bp: self.max_bp,
            explanation: self.explanation@,
        }
    }
}

fn band(registry_key: &str, label: &str, min_bp: Option<i64>, max_bp: Option<i64>, explanation: &str) -> (r: SemanticBandDto)
    ensures
        r@ == (BandView { registry_key: registry_key@, label: label@, min_bp, max_bp, explanation: explanation@ }),
{
    SemanticBandDto {
        registry_key: registry_key.to_string(),
        label: label.to_string(),
        min_bp,
        max_bp,
        explanation: explanation.to_string(),
    }
}

pub open spec fn bands_view(v: Seq<SemanticBandDto>) -> Seq<BandView> {
    v.map_values(|b: SemanticBandDto| b@)
}

/// Bands follow one another without gap or overlap: only the first is open below,
/// each starts one above where the previous ends, and the last ends at 10 000.
pub open spec fn bands_tile_range(bands: Seq<BandView>) -> bool {
    &&& bands.len() > 0
    &&& bands[0].min_bp is None
    &&& forall|i: int| 0 <= i < bands.len() ==> (#[trigger] bands[i]).max_bp is Some
    &&& forall|i: int| 0 < i < bands.len() ==> (#[trigger] bands[i]).min_bp is Some
        && bands[i].min_bp->0 == bands[i - 1].max_bp->0 + 1
        && bands[i].min_bp->0 <= bands[i].max_bp->0
    &&& bands.last().max_bp == Some(10_000i64)
}

pub open spec fn semantic_readiness_bands_spec() -> Seq<BandView> {
    seq![
        BandView { registry_key: "critical"@, label: "Critical"@, min_bp: None, max_bp: Some(3999i64), explanation: "The learner is not ready and the coach should prioritize rescue over acceleration."@ },
        BandView { registry_key: "fragile"@, label: "Fragile"@, min_bp: Some(4000i64), max_bp: Some(5499i64), explanation: "The learner has partial traction but the state is still unstable."@ },
        BandView { registry_key: "building"@, label: "Building"@, min_bp: Some(5500i64), max_bp: Some(8499i64), explanation: "The learner is progressing, but protection and targeted repair still matter."@ },
        BandView { registry_key: "exam_ready"@, label: "Exam Ready"@, min_bp: Some(8500i64), max_bp: Some(10000i64), explanation: "The learner is demonstrating a strong enough state for exam-facing execution."@ },
    ]
}

/// The readiness bands, from critical to exam ready.
pub fn semantic_readiness_bands() -> (r: Vec<SemanticBandDto>)
    ensures
        bands_view(r@) == semantic_readiness_bands_spec(),
{
    let mut out: Vec<SemanticBandDto> = Vec::new();
    out.push(band("critical", "Critical", None, Some(3999i64), "The learner is not ready and the coach should prioritize rescue over acceleration."));
    out.push(band("fragile", "Fragile", Some(4000i64), Some(5499i64), "The learner has partial traction but the state is still unstable."));
    out.push(band("building", "Building", Some(5500i64), Some(8499i64), "The learner is progressing, but protection and targeted repair still matter."));
    out.push(band("exam_ready", "Exam Ready", Some(8500i64), Some(10000i64), "The learner is demonstrating a strong enough state for exam-facing execution."));
    assert(bands_view(out@) =~= semantic_readiness_bands_spec());
    out
}

pub open spec fn semantic_mastery_bands_spec() -> Seq<BandView> {
    seq![
        BandView { registry_key: "exposed"@, label: "Exposed"@, min_bp: None, max_bp: Some(3999i64), explanation: "The concept has been seen but cannot yet be trusted."@ },
        BandView { registry_key: "fragile"@, label: "Fragile"@, min_bp: Some(4000i64), max_bp: Some(7199i64), explanation: "The concept is partially learned but can still collapse."@ },
        BandView { registry_key: "stable"@, label: "Stable"@, min_bp: Some(7200i64), max_bp: Some(8999i64), explanation: "The learner is reliably handling the concept in normal conditions."@ },
        BandView { registry_key: "exam_ready"@, label: "Exam Ready"@, min_bp: Some(9000i64), max_bp: Some(10000i64), explanation: "The concept is operating at the highest governed mastery threshold."@ },
    ]
}

/// The mastery bands, from exposed to exam ready.
pub fn semantic_mastery_bands() -> (r: Vec<SemanticBandDto>)
    ensures
        bands_view(r@) == semantic_mastery_bands_spec(),
{
    let mut out: Vec<SemanticBandDto> = Vec::new();
    out.push(band("exposed", "Exposed", None, Some(3999i64), "The concept has been seen but cannot yet be trusted."));
    out.push(band("fragile", "Fragile", Some(4000i64), Some(7199i64), "The concept is partially learned but can still collapse."));
    out.push(band("stable", "Stable", Some(7200i64), Some(8999i64), "The learner is reliably handling the concept in normal conditions."));
    out.push(band("exam_ready", "Exam Ready", Some(9000i64), Some(10000i64), "The concept is operating at the highest governed mastery threshold."));
    assert(bands_view(out@) =~= semantic_mastery_bands_spec());
    out
}

pub open spec fn semantic_confidence_bands_spec() -> Seq<BandView> {
    seq![
        BandView { registry_key: "low"@, label: "Low confidence"@, min_bp: None, max_bp: Some(4999i64), explanation: "The system should avoid high-impact decisions until more evidence lands."@ },
        BandView { registry_key: "medium"@, label: "Medium confidence"@, min_bp: Some(5000i64), max_bp: Some(7499i64), explanation: "The signal is usable, but contradiction checks still matter."@ },
        BandView { registry_key: "high"@, label: "High confidence"@, min_bp: Some(7500i64), max_bp: Some(10000i64), explanation: "The system can safely let this evidence drive stronger behavior changes."@ },
    ]
}

/// The evidence confidence bands.
pub fn semantic_confidence_bands() -> (r: Vec<SemanticBandDto>)
    ensures
        bands_view(r@) == semantic_confidence_bands_spec(),
{
    let mut out: Vec<SemanticBandDto> = Vec::new();
    out.push(band("low", "Low confidence", None, Some(4999i64), "The system should avoid high-impact decisions until more evidence lands."));
    out.push(band("medium", "Medium confidence", Some(5000i64), Some(7499i64), "The signal is usable, but contradiction checks still matter."));
    out.push(band("high", "High confidence", Some(7500i64), Some(10000i64), "The system can safely let this evidence drive stronger behavior changes."));
    assert(bands_view(out@) =~= semantic_confidence_bands_spec());
    out
}

pub open spec fn semantic_severity_bands_spec() -> Seq<BandView> {
    seq![
        BandView { registry_key: "low"@, label: "Low"@, min_bp: None, max_bp: Some(3999i64), explanation: "Monitor the issue without overreacting."@ },
        BandView { registry_key: "medium"@, label: "Medium"@, min_bp: Some(4000i64), max_bp: Some(6999i64), explanation: "The issue needs visible response but not crisis handling."@ },
        BandView { registry_key: "high"@, label: "High"@, min_bp: Some(7000i64), max_bp: Some(8999i64), explanation: "The issue should alter planning or coaching behavior quickly."@ },
        BandView { registry_key: "critical"@, label: "Critical"@, min_bp: Some(9000i64), max_bp: Some(10000i64), explanation: "The system should escalate and protect the learner from false progress."@ },
    ]
}

/// The issue severity bands.
pub fn semantic_severity_bands() -> (r: Vec<SemanticBandDto>)
    ensures
        bands_view(r@) == semantic_severity_bands_spec(),
{
    let mut out: Vec<SemanticBandDto> = Vec::new();
    out.push(band("low", "Low", None, Some(3999i64), "Monitor the issue without overreacting."));
    out.push(band("medium", "Medium", Some(4000i64), Some(6999i64), "The issue needs visible response but not crisis handling."));
    out.push(band("high", "High", Some(7000i64), Some(8999i64), "The issue should alter planning or coaching behavior quickly."));
    out.push(band("critical", "Critical", Some(9000i64), Some(10000i64), "The system should escalate and protect the learner from false progress."));
    assert(bands_view(out@) =~= semantic_severity_bands_spec());
    out
}

/// The abstract content of a freshness rule.
pub struct FreshnessView {
    pub label: Seq<char>,
    pub min_days: i64,
    pub max_days: Option<i64>,
    pub explanation: Seq<char>,
}

impl View for EvidenceFreshnessRuleDto {
    type V = FreshnessView;

    open spec fn view(&self) -> FreshnessView {
        FreshnessView { label: self.label@, min_days: self.min_days, max_days: self.max_days, explanation: self.explanation@ }
    }
}

fn freshness_rule(label: &str, min_days: i64, max_days: Option<i64>, explanation: &str) -> (r: EvidenceFreshnessRuleDto)
    ensures
        r@ == (FreshnessView { label: label@, min_days, max_days, explanation: explanation@ }),
{
    EvidenceFreshnessRuleDto { label: label.to_string(), min_days, max_days, explanation: explanation.to_string() }
}

pub open spec fn evidence_freshness_rules_spec() -> Seq<FreshnessView> {
    seq![
        FreshnessView { label: "fresh"@, min_days: 0, max_days: Some(7i64), explanation: "Fresh evidence should be weighted most strongly in planning."@ },
        FreshnessView { label: "recent"@, min_days: 8, max_days: Some(21i64), explanation: "Recent evidence is still actionable but should be checked for confirmation."@ },
        FreshnessView { label: "aging"@, min_days: 22, max_days: Some(45i64), explanation: "Aging evidence should influence planning with caution unless repeated."@ },
        FreshnessView { label: "stale"@, min_days: 46, max_days: None, explanation: "Stale evidence should not dominate new decisions without refresh."@ },
    ]
}

/// How evidence ages, by days since it was recorded.
pub fn evidence_freshness_rules() -> (r: Vec<EvidenceFreshnessRuleDto>)
    ensures
        r@.map_values(|f: EvidenceFreshnessRuleDto| f@) == evidence_freshness_rules_spec(),
{
    let mut out: Vec<EvidenceFreshnessRuleDto> = Vec::new();
    out.push(freshness_rule("fresh", 0, Some(7i64), "Fresh evidence should be weighted most strongly in planning."));
    out.push(freshness_rule("recent", 8, Some(21i64), "Recent evidence is still actionable but should be checked for confirmation."));
    out.push(freshness_rule("aging", 22, Some(45i64), "Aging evidence should influence planning with caution unless repeated."));
    out.push(freshness_rule("stale", 46, None, "Stale evidence should not dominate new decisions without refresh."));
    assert(out@.map_values(|f: EvidenceFreshnessRuleDto| f@) =~= evidence_freshness_rules_spec());
    out
}

/// Every band list of the semantics registry tiles the basis-point range, and the
/// freshness rules follow one another day by day from day zero, the last one open-ended.
pub proof fn semantic_bands_tile_the_range()
    ensures
        bands_tile_range(semantic_readiness_bands_spec()),
        bands_tile_range(semantic_mastery_bands_spec()),
        bands_tile_range(semantic_confidence_bands_spec()),
        bands_tile_range(semantic_severity_bands_spec()),
        evidence_freshness_rules_spec()[0].min_days == 0,
        forall|i: int| 0 < i < evidence_freshness_rules_spec().len() ==>
            (#[trigger] evidence_freshness_rules_spec()[i]).min_days
                == evidence_freshness_rules_spec()[i - 1].max_days->0 + 1,
        evidence_freshness_rules_spec().last().max_days is None,
{
    assert(bands_tile_range(semantic_readiness_bands_spec()));
    assert(bands_tile_range(semantic_mastery_bands_spec()));
    assert(bands_tile_range(semantic_confidence_bands_spec()));
    assert(bands_tile_range(semantic_severity_bands_spec()));
}


/// The aggregate counts the content-health read model is built from.
#[derive(Clone, Copy, Debug)]
pub struct ContentHealthCounts {
    pub source_count: i64,
    pub stale_source_count: i64,
    pub overdue_source_review_count: i64,
    /// Mean of confidence, trust and freshness over the sources, rounded to basis points.
    pub average_source_quality_bp: i64,
    pub active_mission_count: i64,
    pub mission_review_required_count: i64,
    pub blocked_publish_count: i64,
    pub preview_publish_count: i64,
    /// Mean evaluation quality over all runs, rounded to basis points.
    pub average_quality_bp: i64,
}

/// One of the lowest-scoring topics of the evaluation runs.
#[derive(Clone, Debug)]
pub struct TopicQualityRow {
    pub topic_id: i64,
    pub topic_name: String,
    pub average_quality_bp: i64,
    pub evaluation_run_count: i64,
}

pub open spec fn quality_severity(avg: int) -> Seq<char> {
    if avg < 5_500 {
        "critical"@
    } else if avg < 6_500 {
        "high"@
    } else {
        "medium"@
    }
}

/// Topics below 7 000 bp are reported, in the order given.
pub open spec fn low_quality_rows(rows: Seq<TopicQualityRow>) -> Seq<TopicQualityRow> {
    rows.filter(|r: TopicQualityRow| r.average_quality_bp < 7_000)
}

pub open spec fn issue_matches(row: TopicQualityRow, issue: ContentHealthTopicIssueDto) -> bool {
    &&& issue.topic_id == row.topic_id
    &&& issue.topic_name@ == row.topic_name@
    &&& issue.average_quality_bp == row.average_quality_bp
    &&& issue.evaluation_run_count == row.evaluation_run_count
    &&& issue.severity@ == quality_severity(row.average_quality_bp as int)
}

/// A low-quality topic as the health model reports it, with its severity.
pub fn quality_issue(row: &TopicQualityRow) -> (r: ContentHealthTopicIssueDto)
    ensures
        issue_matches(*row, r),
{
    let severity = if row.average_quality_bp < 5_500 {
        "critical".to_string()
    } else if row.average_quality_bp < 6_500 {
        "high".to_string()
    } else {
        "medium".to_string()
    };
    ContentHealthTopicIssueDto {
        topic_id: row.topic_id,
        topic_name: row.topic_name.clone(),
        average_quality_bp: row.average_quality_bp,
        evaluation_run_count: row.evaluation_run_count,
        severity,
    }
}

pub open spec fn stale_sources_action(n: i64) -> ActionView {
    ActionView {
        recommendation_key: "refresh_stale_sources"@,
        audience: "admin"@,
        label: "Refresh stale source registry entries"@,
        summary: "Some content sources are stale, so trust and freshness should be reviewed before the next publish cycle."@,
        route_key: "content_source_registry"@,
        urgency: "high"@,
        rationale: decimal_text(n as int) + " source entries are currently stale."@,
    }
}

pub open spec fn review_missions_action(n: i64) -> ActionView {
    ActionView {
        recommendation_key: "review_content_missions"@,
        audience: "admin"@,
        label: "Review gated research missions"@,
        summary: "Research missions are waiting for human attention before they can become trusted content."@,
        route_key: "content_research_board"@,
        urgency: "high"@,
        rationale: decimal_text(n as int) + " mission(s) are waiting in review_required."@,
    }
}

pub open spec fn publish_rejections_action(n: i64) -> ActionView {
    ActionView {
        recommendation_key: "inspect_publish_rejections"@,
        audience: "admin"@,
        label: "Inspect rejected or rolled-back publish decisions"@,
        summary: "The control plane has recorded publish failures that should feed back into source policy or quality governance."@,
        route_key: "content_publish_decisions"@,
        urgency: "medium"@,
        rationale: decimal_text(n as int) + " publish decisions are currently rejected or rolled back."@,
    }
}

pub open spec fn low_quality_action(n: int) -> ActionView {
    ActionView {
        recommendation_key: "audit_low_quality_topics"@,
        audience: "admin"@,
        label: "Audit low-quality topic bundles"@,
        summary: "The content health layer has detected topics whose evaluation quality is drifting below a healthy threshold."@,
        route_key: "content_health"@,
        urgency: "medium"@,
        rationale: decimal_text(n) + " topics are currently below the preferred quality floor."@,
    }
}

/// The follow-ups the content-health model recommends, in this order: stale sources,
/// missions in review, rejected publishes, low-quality topics; each only when present.
pub open spec fn content_health_actions_spec(c: ContentHealthCounts, low_topics: int) -> Seq<ActionView> {
    let a1 = if c.stale_source_count > 0 { seq![stale_sources_action(c.stale_source_count)] } else { Seq::empty() };
    let a2 = if c.mission_review_required_count > 0 { seq![review_missions_action(c.mission_review_required_count)] } else { Seq::empty() };
    let a3 = if c.blocked_publish_count > 0 { seq![publish_rejections_action(c.blocked_publish_count)] } else { Seq::empty() };
    let a4 = if low_topics > 0 { seq![low_quality_action(low_topics)] } else { Seq::empty() };
    a1 + a2 + a3 + a4
}

/// Assembles the content-health read model from the aggregate counts and the
/// lowest-scoring topics. Topics below 7 000 bp are kept with a severity; the average
/// quality reported is the larger of the evaluation and source averages.
pub fn get_content_health_read_model(counts: ContentHealthCounts, rows: &Vec<TopicQualityRow>) -> (r: ContentHealthReadModelDto)
    requires
        rows@.len() <= i64::MAX,
    ensures
        crate::clock::utc_timestamp_text(r.generated_at@),
        r.source_count == counts.source_count,
        r.stale_source_count == counts.stale_source_count,
        r.overdue_source_review_count == counts.overdue_source_review_count,
        r.active_mission_count == counts.active_mission_count,
        r.mission_review_required_count == counts.mission_review_required_count,
        r.blocked_publish_count == counts.blocked_publish_count,
        r.preview_publish_count == counts.preview_publish_count,
        r.average_quality_bp == (if counts.average_quality_bp >= counts.average_source_quality_bp {
            counts.average_quality_bp
        } else {
            counts.average_source_quality_bp
        }),
        r.low_quality_topics@.len() == low_quality_rows(rows@).len(),
        forall|i: int| 0 <= i < r.low_quality_topics@.len() ==> issue_matches(low_quality_rows(rows@)[i], #[trigger] r.low_quality_topics@[i]),
        actions_view(r.action_recommendations@) == content_health_actions_spec(counts, low_quality_rows(rows@).len() as int),
{
    let mut low: Vec<ContentHealthTopicIssueDto> = Vec::new();
    let mut i: usize = 0;
    while i < rows.len()
        invariant
            i <= rows.len(),
            low@.len() == low_quality_rows(rows@.take(i as int)).len(),
            forall|k: int| 0 <= k < low@.len() ==> issue_matches(low_quality_rows(rows@.take(i as int))[k], #[trigger] low@[k]),
        decreases rows.len() - i,
    {
        let ghost before = rows@.take(i as int);
        assert(rows@.take(i + 1) =~= before.push(rows@[i as int]));
        proof {
            before.lemma_filter_push(rows@[i as int], |r: TopicQualityRow| r.average_quality_bp < 7_000);
        }
        if rows[i].average_quality_bp < 7_000 {
            low.push(quality_issue(&rows[i]));
        }
        i = i + 1;
    }
    assert(rows@.take(rows.len() as int) =~= rows@);
    proof {
        lemma_filter_len_bound(rows@);
    }
    let mut actions: Vec<ActionRecommendationDto> = Vec::new();
    let ghost c = counts;
    if counts.stale_source_count > 0 {
        actions.push(action(
            "refresh_stale_sources".to_string(),
            "admin",
            "Refresh stale source registry entries".to_string(),
            "Some content sources are stale, so trust and freshness should be reviewed before the next publish cycle.".to_string(),
            "content_source_registry".to_string(),
            "high",
            i64_text(counts.stale_source_count).concat(" source entries are currently stale."),
        ));
    }
    let ghost s1 = actions_view(actions@);
    if counts.mission_review_required_count > 0 {
        actions.push(action(
            "review_content_missions".to_string(),
            "admin",
            "Review gated research missions".to_string(),
            "Research missions are waiting for human attention before they can become trusted content.".to_string(),
            "content_research_board".to_string(),
            "high",
            i64_text(counts.mission_review_required_count).concat(" mission(s) are waiting in review_required."),
        ));
    }
    let ghost s2 = actions_view(actions@);
    if counts.blocked_publish_count > 0 {
        actions.push(action(
            "inspect_publish_rejections".to_string(),
            "admin",
            "Inspect rejected or rolled-back publish decisions".to_string(),
            "The control plane has recorded publish failures that should feed back into source policy or quality governance.".to_string(),
            "content_publish_decisions".to_string(),
            "medium",
            i64_text(counts.blocked_publish_count).concat(" publish decisions are currently rejected or rolled back."),
        ));
    }
    let ghost s3 = actions_view(actions@);
    if low.len() > 0 {
        actions.push(action(
            "audit_low_quality_topics".to_string(),
            "admin",
            "Audit low-quality topic bundles".to_string(),
            "The content health layer has detected topics whose evaluation quality is drifting below a healthy threshold.".to_string(),
            "content_health".to_string(),
            "medium",
            i64_text(low.len() as i64).concat(" topics are currently below the preferred quality floor."),
        ));
    }
    assert(actions_view(actions@) =~= content_health_actions_spec(c, low@.len() as int));
    ContentHealthReadModelDto {
        generated_at: now_rfc3339(),
        source_count: counts.source_count,
        stale_source_count: counts.stale_source_count,
        overdue_source_review_count: counts.overdue_source_review_count,
        active_mission_count: counts.active_mission_count,
        mission_review_required_count: counts.mission_review_required_count,
        blocked_publish_count: counts.blocked_publish_count,
        preview_publish_count: counts.preview_publish_count,
        average_quality_bp: if counts.average_quality_bp >= counts.average_source_quality_bp {
            counts.average_quality_bp
        } else {
            counts.average_source_quality_bp
        },
        low_quality_topics: low,
        action_recommendations: actions,
    }
}

/// Keeping some rows never yields more rows than there were.
pub proof fn lemma_filter_len_bound(rows: Seq<TopicQualityRow>)
    ensures
        low_quality_rows(rows).len() <= rows.len(),
    decreases rows.len(),
{
    reveal(Seq::filter);
    if rows.len() > 0 {
        lemma_filter_len_bound(rows.drop_last());
    }
}


/// The oversight figures the admin surface is built from.
#[derive(Clone, Debug)]
pub struct AdminOversightView {
    pub admin_id: i64,
    pub admin_name: String,
    pub generated_at: String,
    pub total_students: i64,
    pub critical_students: i64,
    pub households_needing_attention: i64,
    pub active_interventions: i64,
}

pub open spec fn admin_directives_spec(o: AdminOversightView, h: ContentHealthReadModelDto) -> Seq<DirectiveView> {
    let first = DirectiveView {
        directive_type: "admin_watchlist"@,
        audience: "admin"@,
        title: "Super-admin control plane summary"@,
        summary: decimal_text(o.critical_students as int) + " students are critical and "@
            + decimal_text(o.households_needing_attention as int) + " households need attention."@,
        priority: if o.critical_students > 0 { "high"@ } else { "medium"@ },
        primary_action: "admin_oversight"@,
        supporting_signals: seq![
            "critical_students:"@ + decimal_text(o.critical_students as int),
            "households_needing_attention:"@ + decimal_text(o.households_needing_attention as int),
        ],
    };
    let governance = DirectiveView {
        directive_type: "content_governance_watch"@,
        audience: "admin"@,
        title: "Content OS governance needs attention"@,
        summary: "The content control plane has stale sources, queued research, or blocked publish signals that should be reviewed."@,
        priority: "high"@,
        primary_action: "content_health"@,
        supporting_signals: seq![
            "stale_sources:"@ + decimal_text(h.stale_source_count as int),
            "review_required_missions:"@ + decimal_text(h.mission_review_required_count as int),
            "blocked_publish:"@ + decimal_text(h.blocked_publish_count as int),
        ],
    };
    if h.stale_source_count > 0 || h.mission_review_required_count > 0 || h.blocked_publish_count > 0 {
        seq![first, governance]
    } else {
        seq![first]
    }
}

/// The admin directives: always the watchlist summary, then a governance warning when
/// sources are stale, missions wait for review, or publishes were blocked.
pub fn build_admin_directives(o: &AdminOversightView, h: &ContentHealthReadModelDto) -> (r: Vec<CoachDirectiveDto>)
    ensures
        directives_view(r@) == admin_directives_spec(*o, *h),
{
    let mut out: Vec<CoachDirectiveDto> = Vec::new();
    out.push(directive(
        "admin_watchlist",
        "admin",
        "Super-admin control plane summary".to_string(),
        i64_text(o.critical_students).concat(" students are critical and ").concat(
            i64_text(o.households_needing_attention).as_str(),
        ).concat(" households need attention."),
        if o.critical_students > 0 { "high" } else { "medium" },
        "admin_oversight",
        two_texts(
            "critical_students:".to_string().concat(i64_text(o.critical_students).as_str()),
            "households_needing_attention:".to_string().concat(i64_text(o.households_needing_attention).as_str()),
        ),
    ));
    if h.stale_source_count > 0 || h.mission_review_required_count > 0 || h.blocked_publish_count > 0 {
        out.push(directive(
            "content_governance_watch",
            "admin",
            "Content OS governance needs attention".to_string(),
            "The content control plane has stale sources, queued research, or blocked publish signals that should be reviewed.".to_string(),
            "high",
            "content_health",
            three_texts(
                "stale_sources:".to_string().concat(i64_text(h.stale_source_count).as_str()),
                "review_required_missions:".to_string().concat(i64_text(h.mission_review_required_count).as_str()),
                "blocked_publish:".to_string().concat(i64_text(h.blocked_publish_count).as_str()),
            ),
        ));
    }
    assert(directives_view(out@) =~= admin_directives_spec(*o, *h));
    out
}

pub open spec fn admin_cards_spec(o: AdminOversightView, h: ContentHealthReadModelDto) -> Seq<CardView> {
    seq![
        CardView {
            card_key: "admin_student_pressure"@,
            audience: "admin"@,
            title: "Student pressure overview"@,
            summary: "The oversight layer currently tracks "@ + decimal_text(o.total_students as int)
                + " total students with "@ + decimal_text(o.active_interventions as int) + " active interventions."@,
            tone: "operational"@,
            metric_label: Some("critical_students"@),
            metric_value: Some(o.critical_students),
            tags: seq!["ops"@, "readiness"@],
        },
        CardView {
            card_key: "admin_content_health"@,
            audience: "admin"@,
            title: "Content health"@,
            summary: decimal_text(h.source_count as int) + " sources, "@ + decimal_text(h.stale_source_count as int)
                + " stale, average quality "@ + decimal_text(h.average_quality_bp as int) + " bp."@,
            tone: "operational"@,
            metric_label: Some("active_mission_count"@),
            metric_value: Some(h.active_mission_count),
            tags: seq!["content_os"@, "governance"@],
        },
    ]
}

/// The two operational cards of the admin surface.
pub fn build_admin_insight_cards(o: &AdminOversightView, h: &ContentHealthReadModelDto) -> (r: Vec<InsightCardDto>)
    ensures
        cards_view(r@) == admin_cards_spec(*o, *h),
{
    let mut out: Vec<InsightCardDto> = Vec::new();
    out.push(card(
        "admin_student_pressure",
        "admin",
        "Student pressure overview",
        "The oversight layer currently tracks ".to_string().concat(i64_text(o.total_students).as_str()).concat(
            " total students with ",
        ).concat(i64_text(o.active_interventions).as_str()).concat(" active interventions."),
        "operational",
        "critical_students",
        o.critical_students,
        two_texts("ops".to_string(), "readiness".to_string()),
    ));
    out.push(card(
        "admin_content_health",
        "admin",
        "Content health",
        i64_text(h.source_count).concat(" sources, ").concat(i64_text(h.stale_source_count).as_str()).concat(
            " stale, average quality ",
        ).concat(i64_text(h.average_quality_bp).as_str()).concat(" bp."),
        "operational",
        "active_mission_count",
        h.active_mission_count,
        two_texts("content_os".to_string(), "governance".to_string()),
    ));
    assert(cards_view(out@) =~= admin_cards_spec(*o, *h));
    out
}

/// An exact copy of a recommendation.
pub fn copy_action(a: &ActionRecommendationDto) -> (r: ActionRecommendationDto)
    ensures
        r@ == a@,
{
    ActionRecommendationDto {
        recommendation_key: a.recommendation_key.clone(),
        audience: a.audience.clone(),
        label: a.label.clone(),
        summary: a.summary.clone(),
        route_key: a.route_key.clone(),
        urgency: a.urgency.clone(),
        rationale: a.rationale.clone(),
    }
}

/// An exact copy of a list of recommendations.
pub fn copy_actions(v: &Vec<ActionRecommendationDto>) -> (r: Vec<ActionRecommendationDto>)
    ensures
        actions_view(r@) == actions_view(v@),
{
    let mut out: Vec<ActionRecommendationDto> = Vec::new();
    let mut i: usize = 0;
    while i < v.len()
        invariant
            i <= v.len(),
            out@.len() == i,
            actions_view(out@) == actions_view(v@.take(i as int)),
        decreases v.len() - i,
    {
        let ghost old = out@;
        out.push(copy_action(&v[i]));
        assert forall|j: int| 0 <= j < out@.len() implies actions_view(out@)[j] == actions_view(v@.take(i + 1))[j] by {
            if j < i {
                assert(actions_view(old)[j] == actions_view(v@.take(i as int))[j]);
            }
        }
        assert(actions_view(out@) =~= actions_view(v@.take(i + 1)));
        i = i + 1;
    }
    assert(v@.take(v.len() as int) =~= v@);
    out
}

pub open spec fn triage_action(critical: i64) -> ActionView {
    ActionView {
        recommendation_key: "triage_critical_students"@,
        audience: "admin"@,
        label: "Triage critical learners first"@,
        summary: "The admin surface is ranking pressure by real readiness and risk signals, not just raw scores."@,
        route_key: "admin_oversight"@,
        urgency: "high"@,
        rationale: decimal_text(critical as int) + " critical learners are currently on the watchlist."@,
    }
}

/// The admin actions: the content-health follow-ups, led by a triage action when
/// learners are critical.
pub fn build_admin_action_recommendations(o: &AdminOversightView, h: &ContentHealthReadModelDto) -> (r: Vec<ActionRecommendationDto>)
    ensures
        actions_view(r@) == (if o.critical_students > 0 {
            seq![triage_action(o.critical_students)] + actions_view(h.action_recommendations@)
        } else {
            actions_view(h.action_recommendations@)
        }),
{
    let mut actions = copy_actions(&h.action_recommendations);
    if o.critical_students > 0 {
        let t = action(
            "triage_critical_students".to_string(),
            "admin",
            "Triage critical learners first".to_string(),
            "The admin surface is ranking pressure by real readiness and risk signals, not just raw scores.".to_string(),
            "admin_oversight".to_string(),
            "high",
            i64_text(o.critical_students).concat(" critical learners are currently on the watchlist."),
        );
        actions.insert(0, t);
        assert(actions_view(actions@) =~= seq![triage_action(o.critical_students)] + actions_view(h.action_recommendations@));
    }
    actions
}

pub open spec fn admin_explanations_spec(o: AdminOversightView, h: ContentHealthReadModelDto) -> Seq<ExplanationView> {
    seq![
        ExplanationView {
            audience: "admin"@,
            headline: "This admin surface is intentionally operational."@,
            summary: "It combines learner readiness oversight with content-system governance so super-admin work stays tied to real student outcomes."@,
            supporting_points: seq![
                "Critical students: "@ + decimal_text(o.critical_students as int),
                "Stale sources: "@ + decimal_text(h.stale_source_count as int),
            ],
        },
        ExplanationView {
            audience: "parent"@,
            headline: "Parent outputs stay translated even when admin views go deeper."@,
            summary: "The control plane can see pressure and governance detail without leaking raw operational noise into the parent surface."@,
            supporting_points: seq!["Parents receive curated summaries; admins receive operational truth."@],
        },
        ExplanationView {
            audience: "student"@,
            headline: "Students feel the intervention, not the control plane."@,
            summary: "Admin governance improves the quality of the coaching experience without exposing internal tuning mechanics."@,
            supporting_points: seq!["This keeps student experience clean while maintaining oversight."@],
        },
    ]
}

/// How the admin surface explains itself to each audience.
pub fn build_admin_audience_explanations(o: &AdminOversightView, h: &ContentHealthReadModelDto) -> (r: Vec<AudienceExplanationDto>)
    ensures
        explanations_view(r@) == admin_explanations_spec(*o, *h),
{
    let mut out: Vec<AudienceExplanationDto> = Vec::new();
    out.push(explanation(
        "admin",
        "This admin surface is intentionally operational.",
        "It combines learner readiness oversight with content-system governance so super-admin work stays tied to real student outcomes.".to_string(),
        two_texts(
            "Critical students: ".to_string().concat(i64_text(o.critical_students).as_str()),
            "Stale sources: ".to_string().concat(i64_text(h.stale_source_count).as_str()),
        ),
    ));
    out.push(explanation(
        "parent",
        "Parent outputs stay translated even when admin views go deeper.",
        "The control plane can see pressure and governance detail without leaking raw operational noise into the parent surface.".to_string(),
        one_text("Parents receive curated summaries; admins receive operational truth."),
    ));
    out.push(explanation(
        "student",
        "Students feel the intervention, not the control plane.",
        "Admin governance improves the quality of the coaching experience without exposing internal tuning mechanics.".to_string(),
        one_text("This keeps student experience clean while maintaining oversight."),
    ));
    assert(explanations_view(out@) =~= admin_explanations_spec(*o, *h));
    out
}

/// How severe a quality issue is: medium (0), high (1) or critical (2), or -1 for a name
/// that is no severity.
pub open spec fn severity_rank(severity: Seq<char>) -> int {
    if severity == "medium"@ { 0 } else if severity == "high"@ { 1 } else if severity == "critical"@ { 2 } else { -1 }
}

/// A low-quality topic is critical below 5500 bp, high from 5500 up to 6499 bp, and
/// medium from 6500 bp; a lower average never gets a milder severity.
pub proof fn quality_severity_falls_as_quality_rises(low: int, high: int)
    requires
        low <= high,
    ensures
        low < 5_500 ==> quality_severity(low) == "critical"@,
        5_500 <= low < 6_500 ==> quality_severity(low) == "high"@,
        6_500 <= low ==> quality_severity(low) == "medium"@,
        0 <= severity_rank(quality_severity(high)) <= severity_rank(quality_severity(low)) <= 2,
{
    reveal_strlit("medium");
    reveal_strlit("high");
    reveal_strlit("critical");
    assert("medium"@.len() == 6 && "high"@.len() == 4 && "critical"@.len() == 8);
    assert(severity_rank("medium"@) == 0 && severity_rank("high"@) == 1 && severity_rank("critical"@) == 2);
}

/// Every topic the content-health model reports carries its own identity, name, average
/// and run count, and the severity its average quality calls for.
pub proof fn reported_topics_are_graded_by_quality(row: TopicQualityRow, issue: ContentHealthTopicIssueDto)
    requires
        issue_matches(row, issue),
    ensures
        issue.topic_id == row.topic_id && issue.topic_name@ == row.topic_name@,
        issue.average_quality_bp == row.average_quality_bp && issue.evaluation_run_count == row.evaluation_run_count,
        row.average_quality_bp < 5_500 ==> issue.severity@ == "critical"@,
        5_500 <= row.average_quality_bp < 6_500 ==> issue.severity@ == "high"@,
        6_500 <= row.average_quality_bp ==> issue.severity@ == "medium"@,
{
}

/// The content-health model reports a topic exactly when its average quality is below
/// 7000 bp: each reported row is one of the given rows and lies below 7000 bp, and each
/// given row below 7000 bp is reported.
pub proof fn low_quality_topics_are_those_below_7000(rows: Seq<TopicQualityRow>)
    ensures
        forall|i: int| 0 <= i < low_quality_rows(rows).len() ==> {
            &&& (#[trigger] low_quality_rows(rows)[i]).average_quality_bp < 7_000
            &&& rows.contains(low_quality_rows(rows)[i])
        },
        forall|i: int| 0 <= i < rows.len() && (#[trigger] rows[i]).average_quality_bp < 7_000 ==> low_quality_rows(rows).contains(rows[i]),
{
    broadcast use vstd::seq_lib::group_filter_ensures;
    let pred = |r: TopicQualityRow| r.average_quality_bp < 7_000;
    assert forall|i: int| 0 <= i < low_quality_rows(rows).len() implies {
        &&& (#[trigger] low_quality_rows(rows)[i]).average_quality_bp < 7_000
        &&& rows.contains(low_quality_rows(rows)[i])
    } by {
        assert(rows.filter(pred).contains(rows.filter(pred)[i]));
        rows.lemma_filter_contains_rev(pred, rows.filter(pred)[i]);
    }
}

} // verus!

