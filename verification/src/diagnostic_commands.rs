//! Diagnostic analytics: the scores, states and coach blockers that a completed
//! diagnostic writes back into the learner model.

use vstd::prelude::*;

use crate::clock::date_after_days;
use crate::text::text_eq;

verus! {

#[derive(Clone, Debug)]
pub struct DiagnosticRunDto {
    pub diagnostic_id: i64,
}

#[derive(Clone, Debug)]
pub struct TopicAnalyticsDto {
    pub topic_id: i64,
    pub topic_name: String,
    pub classification: String,
    pub mastery_score: i64,
    pub confidence_score: i64,
    pub recommended_action: String,
    pub endurance_score: i64,
    pub weakness_type: Option<String>,
    pub failure_stage: Option<String>,
}

#[derive(Clone, Debug)]
pub struct DiagnosticRootCauseHypothesisDto {
    pub topic_id: i64,
    pub topic_name: String,
    pub hypothesis_code: String,
    pub confidence_score: i64,
    pub recommended_action: String,
}

/// A score in basis points, 0 to 10 000.
pub type BasisPoints = u16;

/// `clamp_bp`: a value held to the basis-point range.
pub open spec fn clamp_bp_spec(v: int) -> int {
    if v < 0 { 0 } else if v > 10_000 { 10_000 } else { v }
}

/// A value held to the basis-point range.
pub fn clamp_bp(v: i64) -> (r: BasisPoints)
    ensures
        r as int == clamp_bp_spec(v as int),
{
    if v < 0 {
        0
    } else if v > 10_000 {
        10_000
    } else {
        v as u16
    }
}

/// Per-topic analytics of a completed diagnostic.
#[derive(Clone, Debug)]
pub struct DiagnosticTopicAnalytics {
    pub topic_id: i64,
    pub topic_name: String,
    pub classification: String,
    pub mastery_score: BasisPoints,
    pub confidence_score: BasisPoints,
    pub recommended_action: String,
    pub endurance_score: BasisPoints,
    pub weakness_type: Option<String>,
    pub failure_stage: Option<String>,
    pub stability_score: BasisPoints,
    pub pressure_score: BasisPoints,
    pub flexibility_score: BasisPoints,
    pub precision_score: BasisPoints,
    pub fluency_score: BasisPoints,
}

/// A root-cause hypothesis the diagnostic raised for a topic.
#[derive(Clone, Debug)]
pub struct DiagnosticRootCauseHypothesis {
    pub topic_id: i64,
    pub topic_name: String,
    pub hypothesis_code: String,
    pub confidence_score: BasisPoints,
    pub recommended_action: String,
}

pub open spec fn mastery_state_name(score: int) -> Seq<char> {
    if 9000 <= score <= 10000 {
        "exam_ready"@
    } else if 7800 <= score <= 8999 {
        "robust"@
    } else if 6500 <= score <= 7799 {
        "stable"@
    } else if 5000 <= score <= 6499 {
        "partial"@
    } else if 3200 <= score <= 4999 {
        "fragile"@
    } else if 1500 <= score <= 3199 {
        "emerging"@
    } else if 1 <= score <= 1499 {
        "exposed"@
    } else {
        "unseen"@
    }
}

/// The mastery state named by a score band.
pub fn mastery_state_for_score(score: BasisPoints) -> (r: &'static str)
    ensures
        r@ == mastery_state_name(score as int),
{
    if 9000 <= score && score <= 10000 {
        "exam_ready"
    } else if 7800 <= score && score <= 8999 {
        "robust"
    } else if 6500 <= score && score <= 7799 {
        "stable"
    } else if 5000 <= score && score <= 6499 {
        "partial"
    } else if 3200 <= score && score <= 4999 {
        "fragile"
    } else if 1500 <= score && score <= 3199 {
        "emerging"
    } else if 1 <= score && score <= 1499 {
        "exposed"
    } else {
        "unseen"
    }
}

pub open spec fn fragility_spec(a: DiagnosticTopicAnalytics) -> int {
    let x = 10_000 - a.stability_score as int;
    let y = a.mastery_score as int - a.pressure_score as int;
    let z = a.mastery_score as int - a.flexibility_score as int;
    let xy = if x >= y { x } else { y };
    clamp_bp_spec(if xy >= z { xy } else { z })
}

/// Fragility: the largest of instability, the pressure gap and the flexibility gap.
pub fn fragility_score_for_analytics(a: &DiagnosticTopicAnalytics) -> (r: BasisPoints)
    ensures
        r as int == fragility_spec(*a),
{
    let x = 10_000 - a.stability_score as i64;
    let y = a.mastery_score as i64 - a.pressure_score as i64;
    let z = a.mastery_score as i64 - a.flexibility_score as i64;
    let xy = if x >= y { x } else { y };
    clamp_bp(if xy >= z { xy } else { z })
}

pub open spec fn trend_state_name(a: DiagnosticTopicAnalytics) -> Seq<char> {
    if a.mastery_score < 3500 {
        "critical"@
    } else if fragility_spec(a) >= 6500 {
        "fragile"@
    } else if a.mastery_score >= 7000 {
        "improving"@
    } else {
        "stable"@
    }
}

/// The trend a topic shows: critical, fragile, improving or stable.
pub fn trend_state_for_analytics(a: &DiagnosticTopicAnalytics) -> (r: &'static str)
    ensures
        r@ == trend_state_name(*a),
{
    if a.mastery_score < 3500 {
        "critical"
    } else if fragility_score_for_analytics(a) >= 6500 {
        "fragile"
    } else if a.mastery_score >= 7000 {
        "improving"
    } else {
        "stable"
    }
}

pub open spec fn repair_priority_spec(a: DiagnosticTopicAnalytics, top: Option<DiagnosticRootCauseHypothesis>) -> int {
    let boost = match top {
        Some(h) => h.confidence_score as int / 3,
        None => 0,
    };
    clamp_bp_spec((10_000 - a.mastery_score as int) + fragility_spec(a) / 2 + boost)
}

/// Repair priority: the mastery gap, half the fragility, and a third of the top
/// hypothesis' confidence.
pub fn repair_priority_for_analytics(
    a: &DiagnosticTopicAnalytics,
    top: Option<&DiagnosticRootCauseHypothesis>,
) -> (r: BasisPoints)
    ensures
        r as int == repair_priority_spec(*a, match top { Some(h) => Some(*h), None => None }),
{
    let boost: i64 = match top {
        Some(h) => h.confidence_score as i64 / 3,
        None => 0,
    };
    clamp_bp((10_000 - a.mastery_score as i64) + (fragility_score_for_analytics(a) as i64 / 2) + boost)
}

pub open spec fn decay_risk_spec(a: DiagnosticTopicAnalytics) -> int {
    clamp_bp_spec((10_000 - a.stability_score as int) + fragility_spec(a) / 3)
}

/// Decay risk: instability plus a third of the fragility.
pub fn decay_risk_for_analytics(a: &DiagnosticTopicAnalytics, fragility: BasisPoints) -> (r: BasisPoints)
    requires
        fragility as int == fragility_spec(*a),
    ensures
        r as int == decay_risk_spec(*a),
{
    clamp_bp((10_000 - a.stability_score as i64) + (fragility as i64 / 3))
}

pub open spec fn code_is(top: Option<DiagnosticRootCauseHypothesis>, code: Seq<char>) -> bool {
    top matches Some(h) && h.hypothesis_code@ == code
}

/// Whether the top hypothesis carries the given code.
pub fn hypothesis_code_is(top: Option<&DiagnosticRootCauseHypothesis>, code: &str) -> (r: bool)
    ensures
        r == code_is(match top { Some(h) => Some(*h), None => None }, code@),
{
    match top {
        Some(h) => text_eq(h.hypothesis_code.as_str(), code),
        None => false,
    }
}

pub open spec fn review_offset_spec(a: DiagnosticTopicAnalytics, top: Option<DiagnosticRootCauseHypothesis>) -> int {
    if a.mastery_score < 3500 {
        1
    } else if code_is(top, "timed_pressure_breakdown"@) || code_is(top, "transfer_fragility"@)
        || code_is(top, "misconception_root_cause"@) {
        2
    } else if a.mastery_score < 6500 || fragility_spec(a) >= 5500 {
        3
    } else {
        7
    }
}

/// Days until the next review: one for critical mastery, two for pressure, transfer
/// or misconception causes, three for partial or fragile topics, a week otherwise.
pub fn review_offset_days(a: &DiagnosticTopicAnalytics, top: Option<&DiagnosticRootCauseHypothesis>) -> (r: i64)
    ensures
        r as int == review_offset_spec(*a, match top { Some(h) => Some(*h), None => None }),
{
    if a.mastery_score < 3500 {
        1
    } else if hypothesis_code_is(top, "timed_pressure_breakdown") || hypothesis_code_is(top, "transfer_fragility")
        || hypothesis_code_is(top, "misconception_root_cause") {
        2
    } else if a.mastery_score < 6500 || fragility_score_for_analytics(a) >= 5500 {
        3
    } else {
        7
    }
}

/// The error profile a diagnostic implies for a topic.
#[derive(Clone, Copy, Debug)]
pub struct DiagnosticErrorScores {
    pub knowledge_gap_score: BasisPoints,
    pub conceptual_confusion_score: BasisPoints,
    pub recognition_failure_score: BasisPoints,
    pub execution_error_score: BasisPoints,
    pub carelessness_score: BasisPoints,
    pub pressure_breakdown_score: BasisPoints,
    pub expression_weakness_score: BasisPoints,
    pub speed_error_score: BasisPoints,
}

pub open spec fn gap_spec(a: int, b: int) -> int {
    clamp_bp_spec(if a - b >= 0 { a - b } else { 0 })
}

pub open spec fn conf_of(top: Option<DiagnosticRootCauseHypothesis>) -> int {
    match top {
        Some(h) => h.confidence_score as int,
        None => 0,
    }
}

/// The error profile: each score follows the analytics, except that the score the top
/// hypothesis speaks to takes that hypothesis' confidence.
pub open spec fn error_scores_spec(
    a: DiagnosticTopicAnalytics,
    top: Option<DiagnosticRootCauseHypothesis>,
    s: DiagnosticErrorScores,
) -> bool {
    let pressure_gap = gap_spec(a.mastery_score as int, a.pressure_score as int);
    let flex_gap = gap_spec(a.mastery_score as int, a.flexibility_score as int);
    let speed_gap = gap_spec(a.precision_score as int, a.fluency_score as int);
    &&& s.knowledge_gap_score as int == (if code_is(top, "foundation_gap"@) { conf_of(top) } else { clamp_bp_spec(10_000 - a.mastery_score as int) })
    &&& s.conceptual_confusion_score as int == (if code_is(top, "misconception_root_cause"@) { conf_of(top) } else { clamp_bp_spec(flex_gap / 2) })
    &&& s.recognition_failure_score as int == (if code_is(top, "retrieval_latency_gap"@) { conf_of(top) } else { speed_gap })
    &&& s.execution_error_score as int == clamp_bp_spec(((10_000 - a.precision_score as int) + flex_gap) / 2)
    &&& s.carelessness_score as int == (if code_is(top, "confidence_distortion"@) { conf_of(top) } else { clamp_bp_spec((a.confidence_score as int + pressure_gap) / 3) })
    &&& s.pressure_breakdown_score as int == (if code_is(top, "timed_pressure_breakdown"@) { conf_of(top) } else { pressure_gap })
    &&& s.expression_weakness_score as int == clamp_bp_spec((10_000 - a.precision_score as int) / 2)
    &&& s.speed_error_score as int == speed_gap
}

/// How far the first score exceeds the second, never below zero.
pub fn gap_bp(a: BasisPoints, b: BasisPoints) -> (r: BasisPoints)
    ensures
        r as int == gap_spec(a as int, b as int),
{
    let d = a as i64 - b as i64;
    clamp_bp(if d >= 0 { d } else { 0 })
}

/// The error profile of a topic after a diagnostic.
pub fn diagnostic_error_scores(a: &DiagnosticTopicAnalytics, top: Option<&DiagnosticRootCauseHypothesis>) -> (r: DiagnosticErrorScores)
    ensures
        error_scores_spec(*a, match top { Some(h) => Some(*h), None => None }, r),
{
    let conf: BasisPoints = match top {
        Some(h) => h.confidence_score,
        None => 0,
    };
    let pressure_gap = gap_bp(a.mastery_score, a.pressure_score);
    let flex_gap = gap_bp(a.mastery_score, a.flexibility_score);
    let speed_gap = gap_bp(a.precision_score, a.fluency_score);
    DiagnosticErrorScores {
        knowledge_gap_score: if hypothesis_code_is(top, "foundation_gap") { conf } else { clamp_bp(10_000 - a.mastery_score as i64) },
        conceptual_confusion_score: if hypothesis_code_is(top, "misconception_root_cause") { conf } else { clamp_bp(flex_gap as i64 / 2) },
        recognition_failure_score: if hypothesis_code_is(top, "retrieval_latency_gap") { conf } else { speed_gap },
        execution_error_score: clamp_bp(((10_000 - a.precision_score as i64) + flex_gap as i64) / 2),
        carelessness_score: if hypothesis_code_is(top, "confidence_distortion") { conf } else { clamp_bp((a.confidence_score as i64 + pressure_gap as i64) / 3) },
        pressure_breakdown_score: if hypothesis_code_is(top, "timed_pressure_breakdown") { conf } else { pressure_gap },
        expression_weakness_score: clamp_bp((10_000 - a.precision_score as i64) / 2),
        speed_error_score: speed_gap,
    }
}

pub open spec fn blocked_spec(a: DiagnosticTopicAnalytics, top: Option<DiagnosticRootCauseHypothesis>) -> bool {
    a.mastery_score < 4500 || fragility_spec(a) >= 6500 || code_is(top, "foundation_gap"@)
        || code_is(top, "misconception_root_cause"@) || code_is(top, "timed_pressure_breakdown"@)
        || code_is(top, "transfer_fragility"@)
}

/// A topic blocks the coach when mastery is low, fragility is high, or the top
/// hypothesis names a foundational, misconception, pressure or transfer cause.
pub fn topic_is_blocked(a: &DiagnosticTopicAnalytics, top: Option<&DiagnosticRootCauseHypothesis>) -> (r: bool)
    ensures
        r == blocked_spec(*a, match top { Some(h) => Some(*h), None => None }),
{
    a.mastery_score < 4500 || fragility_score_for_analytics(a) >= 6500 || hypothesis_code_is(top, "foundation_gap")
        || hypothesis_code_is(top, "misconception_root_cause") || hypothesis_code_is(top, "timed_pressure_breakdown")
        || hypothesis_code_is(top, "transfer_fragility")
}

/// Index of the hypothesis that wins for a topic: the first one with the highest
/// confidence among those for the topic.
pub open spec fn top_index(hs: Seq<DiagnosticRootCauseHypothesis>, topic_id: i64) -> Option<int>
    decreases hs.len(),
{
    if hs.len() == 0 {
        None
    } else {
        let prev = top_index(hs.drop_last(), topic_id);
        let h = hs.last();
        if h.topic_id == topic_id && (prev is None || hs[prev->0].confidence_score < h.confidence_score) {
            Some(hs.len() - 1)
        } else {
            prev
        }
    }
}

/// The winning hypothesis belongs to the topic; without one, no hypothesis does.
pub proof fn lemma_top_index_in_range(hs: Seq<DiagnosticRootCauseHypothesis>, topic_id: i64)
    ensures
        top_index(hs, topic_id) matches Some(k) ==> 0 <= k < hs.len() && hs[k].topic_id == topic_id,
        top_index(hs, topic_id) is None ==> forall|k: int| 0 <= k < hs.len() ==> hs[k].topic_id != topic_id,
    decreases hs.len(),
{
    if hs.len() > 0 {
        lemma_top_index_in_range(hs.drop_last(), topic_id);
        if top_index(hs, topic_id) is None {
            assert forall|k: int| 0 <= k < hs.len() implies hs[k].topic_id != topic_id by {
                if k < hs.len() - 1 {
                    assert(hs.drop_last()[k] == hs[k]);
                }
            }
        }
    }
}

/// The winning hypothesis of a topic, by index.
pub fn top_hypothesis_index(hs: &Vec<DiagnosticRootCauseHypothesis>, topic_id: i64) -> (r: Option<usize>)
    ensures
        r matches Some(k) ==> top_index(hs@, topic_id) == Some(k as int),
        r is None ==> top_index(hs@, topic_id) is None,
{
    let mut best: Option<usize> = None;
    let mut i: usize = 0;
    while i < hs.len()
        invariant
            i <= hs.len(),
            best matches Some(k) ==> top_index(hs@.take(i as int), topic_id) == Some(k as int) && k < i,
            best is None ==> top_index(hs@.take(i as int), topic_id) is None,
        decreases hs.len() - i,
    {
        assert(hs@.take(i + 1).drop_last() =~= hs@.take(i as int));
        let replace = hs[i].topic_id == topic_id && match best {
            None => true,
            Some(k) => hs[k].confidence_score < hs[i].confidence_score,
        };
        if replace {
            best = Some(i);
        }
        i = i + 1;
    }
    assert(hs@.take(hs.len() as int) =~= hs@);
    best
}

/// What a completed diagnostic writes for one topic.
#[derive(Clone, Debug)]
pub struct TopicSyncPlan {
    pub topic_id: i64,
    pub top_hypothesis: Option<usize>,
    pub mastery_state: &'static str,
    pub trend_state: &'static str,
    pub gap_score: BasisPoints,
    pub fragility_score: BasisPoints,
    pub repair_priority: BasisPoints,
    pub decay_risk: BasisPoints,
    pub pressure_collapse_index: BasisPoints,
    pub review_offset_days: i64,
    pub next_review_at: String,
    pub error_scores: DiagnosticErrorScores,
    pub blocked: bool,
    pub misconception_recurrence: i64,
    pub blocker_reason: Option<String>,
    pub blocker_severity: Option<&'static str>,
}

/// `code.replace('_', " ")`.
pub open spec fn spaced(code: Seq<char>) -> Seq<char> {
    code.map_values(|c: char| if c == '_' { ' ' } else { c })
}

/// A code with its underscores read as spaces.
pub fn spaced_code(code: &str) -> (r: String)
    ensures
        r@ == spaced(code@),
{
    let v = crate::text::chars_of(code);
    let mut out: Vec<char> = Vec::new();
    for i in 0..v.len()
        invariant
            v@ == code@,
            out@ == spaced(code@.subrange(0, i as int)),
    {
        let c = if v[i] == '_' { ' ' } else { v[i] };
        out.push(c);
        assert(spaced(code@.subrange(0, i + 1)) =~= spaced(code@.subrange(0, i as int)).push(c));
    }
    assert(code@.subrange(0, v.len() as int) =~= code@);
    crate::text::text_from_chars(&out)
}

pub open spec fn blocker_reason_spec(a: DiagnosticTopicAnalytics, top: Option<DiagnosticRootCauseHypothesis>) -> Seq<char> {
    match top {
        Some(h) => "Diagnostic sync flagged "@ + a.topic_name@ + " via "@ + spaced(h.hypothesis_code@) + "."@,
        None => "Diagnostic sync flagged "@ + a.topic_name@ + " as a coach blocker."@,
    }
}

pub open spec fn blocker_severity_spec(a: DiagnosticTopicAnalytics, top: Option<DiagnosticRootCauseHypothesis>) -> Seq<char> {
    if a.mastery_score < 4_000 || (top matches Some(h) && h.confidence_score >= 8_000) {
        "high"@
    } else {
        "moderate"@
    }
}

pub open spec fn opt_hyp(hs: Seq<DiagnosticRootCauseHypothesis>, k: Option<int>) -> Option<DiagnosticRootCauseHypothesis> {
    match k {
        Some(i) => Some(hs[i]),
        None => None,
    }
}

/// The full description of what one topic's sync writes.
pub open spec fn topic_plan_spec(a: DiagnosticTopicAnalytics, hs: Seq<DiagnosticRootCauseHypothesis>, p: TopicSyncPlan) -> bool {
    let k = top_index(hs, a.topic_id);
    let top = opt_hyp(hs, k);
    &&& p.topic_id == a.topic_id
    &&& (p.top_hypothesis matches Some(i) ==> k == Some(i as int))
    &&& (p.top_hypothesis is None ==> k is None)
    &&& p.mastery_state@ == mastery_state_name(a.mastery_score as int)
    &&& p.trend_state@ == trend_state_name(a)
    &&& p.gap_score as int == clamp_bp_spec(10_000 - a.mastery_score as int)
    &&& p.fragility_score as int == fragility_spec(a)
    &&& p.repair_priority as int == repair_priority_spec(a, top)
    &&& p.decay_risk as int == decay_risk_spec(a)
    &&& p.pressure_collapse_index as int == gap_spec(a.mastery_score as int, a.pressure_score as int)
    &&& p.review_offset_days as int == review_offset_spec(a, top)
    &&& error_scores_spec(a, top, p.error_scores)
    &&& p.blocked == blocked_spec(a, top)
    &&& p.misconception_recurrence == (if code_is(top, "misconception_root_cause"@) { 1int } else { 0int })
    &&& (p.blocked ==> (p.blocker_reason matches Some(r) && r@ == blocker_reason_spec(a, top)))
    &&& (p.blocked ==> (p.blocker_severity matches Some(s) && s@ == blocker_severity_spec(a, top)))
    &&& (!p.blocked ==> p.blocker_reason is None && p.blocker_severity is None)
}

/// Works out everything one topic's sync writes.
pub fn plan_topic_sync(a: &DiagnosticTopicAnalytics, hs: &Vec<DiagnosticRootCauseHypothesis>) -> (p: TopicSyncPlan)
    ensures
        crate::clock::date_text(p.next_review_at@),
        topic_plan_spec(*a, hs@, p),
{
    let k = top_hypothesis_index(hs, a.topic_id);
    proof {
        lemma_top_index_in_range(hs@, a.topic_id);
    }
    let top: Option<&DiagnosticRootCauseHypothesis> = match k {
        Some(i) => Some(&hs[i]),
        None => None,
    };
    let fragility = fragility_score_for_analytics(a);
    let blocked = topic_is_blocked(a, top);
    let (reason, severity) = if blocked {
        let reason = match top {
            Some(h) => "Diagnostic sync flagged ".to_string().concat(a.topic_name.as_str()).concat(" via ").concat(
                spaced_code(h.hypothesis_code.as_str()).as_str(),
            ).concat("."),
            None => "Diagnostic sync flagged ".to_string().concat(a.topic_name.as_str()).concat(" as a coach blocker."),
        };
        let high = a.mastery_score < 4_000 || match top {
            Some(h) => h.confidence_score >= 8_000,
            None => false,
        };
        let severity: &'static str = if high { "high" } else { "moderate" };
        (Some(reason), Some(severity))
    } else {
        (None, None)
    };
    let offset = review_offset_days(a, top);
    TopicSyncPlan {
        topic_id: a.topic_id,
        top_hypothesis: k,
        mastery_state: mastery_state_for_score(a.mastery_score),
        trend_state: trend_state_for_analytics(a),
        gap_score: clamp_bp(10_000 - a.mastery_score as i64),
        fragility_score: fragility,
        repair_priority: repair_priority_for_analytics(a, top),
        decay_risk: decay_risk_for_analytics(a, fragility),
        pressure_collapse_index: gap_bp(a.mastery_score, a.pressure_score),
        review_offset_days: offset,
        next_review_at: date_after_days(offset),
        error_scores: diagnostic_error_scores(a, top),
        blocked,
        misconception_recurrence: if hypothesis_code_is(top, "misconception_root_cause") { 1 } else { 0 },
        blocker_reason: reason,
        blocker_severity: severity,
    }
}

/// What the sync of a completed diagnostic writes, topic by topic, and how many topics
/// it flags as coach blockers.
pub struct DiagnosticSyncPlan {
    pub topics: Vec<TopicSyncPlan>,
    pub blocker_count: usize,
}

pub open spec fn blocked_count(ps: Seq<TopicSyncPlan>) -> int
    decreases ps.len(),
{
    if ps.len() == 0 {
        0
    } else {
        blocked_count(ps.drop_last()) + if ps.last().blocked { 1int } else { 0int }
    }
}

/// Plans the sync of every analysed topic, in order.
pub fn plan_diagnostic_sync(
    analytics: &Vec<DiagnosticTopicAnalytics>,
    hypotheses: &Vec<DiagnosticRootCauseHypothesis>,
) -> (r: DiagnosticSyncPlan)
    ensures
        r.topics@.len() == analytics@.len(),
        forall|i: int| 0 <= i < analytics@.len() ==> topic_plan_spec(analytics@[i], hypotheses@, #[trigger] r.topics@[i]),
        r.blocker_count as int == blocked_count(r.topics@),
        forall|i: int| 0 <= i < r.topics@.len() ==> crate::clock::date_text((#[trigger] r.topics@[i]).next_review_at@),
{
    let mut topics: Vec<TopicSyncPlan> = Vec::new();
    let mut count: usize = 0;
    let mut i: usize = 0;
    while i < analytics.len()
        invariant
            i <= analytics.len(),
            topics@.len() == i,
            forall|j: int| 0 <= j < i ==> topic_plan_spec(analytics@[j], hypotheses@, #[trigger] topics@[j]),
            forall|j: int| 0 <= j < i ==> crate::clock::date_text((#[trigger] topics@[j]).next_review_at@),
            count as int == blocked_count(topics@),
            count <= i,
        decreases analytics.len() - i,
    {
        let p = plan_topic_sync(&analytics[i], hypotheses);
        let b = p.blocked;
        let ghost before = topics@;
        topics.push(p);
        assert(topics@.drop_last() =~= before);
        if b {
            count = count + 1;
        }
        i = i + 1;
    }
    DiagnosticSyncPlan { topics, blocker_count: count }
}

/// The topics that carry hypotheses, in order of first appearance.
pub open spec fn hypothesis_topics(hs: Seq<DiagnosticRootCauseHypothesis>) -> Seq<i64>
    decreases hs.len(),
{
    if hs.len() == 0 {
        Seq::empty()
    } else {
        let prev = hypothesis_topics(hs.drop_last());
        if prev.contains(hs.last().topic_id) { prev } else { prev.push(hs.last().topic_id) }
    }
}

/// The winning hypothesis of each topic (by index), one per topic, topics in order of
/// first appearance.
pub fn top_hypotheses_by_topic(hs: &Vec<DiagnosticRootCauseHypothesis>) -> (r: Vec<usize>)
    ensures
        r@.len() == hypothesis_topics(hs@).len(),
        forall|i: int| 0 <= i < r@.len() ==> top_index(hs@, hypothesis_topics(hs@)[i]) == Some(#[trigger] r@[i] as int),
{
    let mut topics: Vec<i64> = Vec::new();
    let mut out: Vec<usize> = Vec::new();
    let mut i: usize = 0;
    while i < hs.len()
        invariant
            i <= hs.len(),
            topics@ == hypothesis_topics(hs@.take(i as int)),
            out@.len() == topics@.len(),
            forall|j: int| 0 <= j < out@.len() ==> top_index(hs@, topics@[j]) == Some(#[trigger] out@[j] as int),
        decreases hs.len() - i,
    {
        assert(hs@.take(i + 1).drop_last() =~= hs@.take(i as int));
        let t = hs[i].topic_id;
        if !crate::attempt_commands::vec_has_id(&topics, t) {
            let k = top_hypothesis_index(hs, t);
            proof {
                lemma_top_index_in_range(hs@, t);
                assert(hs@[i as int].topic_id == t);
            }
            match k {
                Some(idx) => {
                    topics.push(t);
                    out.push(idx);
                },
                None => {},
            }
        }
        i = i + 1;
    }
    assert(hs@.take(hs.len() as int) =~= hs@);
    out
}

/// How deep a diagnostic battery goes.
#[derive(Clone, Copy, Debug, PartialEq, Eq)]
pub enum DiagnosticMode {
    Quick,
    Standard,
    Deep,
}

/// The mode a launch request names: "quick" and "deep" as written, anything else standard.
pub fn parse_mode(mode: &str) -> (r: DiagnosticMode)
    ensures
        r == (if mode@ == "quick"@ {
            DiagnosticMode::Quick
        } else if mode@ == "deep"@ {
            DiagnosticMode::Deep
        } else {
            DiagnosticMode::Standard
        }),
{
    if text_eq(mode, "quick") {
        DiagnosticMode::Quick
    } else if text_eq(mode, "deep") {
        DiagnosticMode::Deep
    } else {
        DiagnosticMode::Standard
    }
}

/// A learner's stored planning settings, each possibly unset.
#[derive(Clone, Debug)]
pub struct StoredPlanSettings {
    pub exam_target: Option<String>,
    pub exam_target_date: Option<String>,
    pub daily_study_budget_minutes: Option<i64>,
}

/// The exam, exam date and daily budget a plan is built with.
#[derive(Clone, Debug)]
pub struct PlanDefaults {
    pub exam_target: String,
    pub exam_target_date: String,
    pub daily_study_budget_minutes: i64,
}

/// The learner's settings, with the BECE, a date thirty days from today and an hour a
/// day standing in for what is unset (all of them when there is no profile).
pub fn load_plan_defaults(stored: Option<StoredPlanSettings>) -> (r: PlanDefaults)
    ensures
        r.exam_target@ == (match stored {
            Some(s) => match s.exam_target {
                Some(t) => t@,
                None => "BECE"@,
            },
            None => "BECE"@,
        }),
        match stored {
            Some(s) => match s.exam_target_date {
                Some(d) => r.exam_target_date@ == d@,
                None => crate::clock::date_text(r.exam_target_date@),
            },
            None => crate::clock::date_text(r.exam_target_date@),
        },
        r.daily_study_budget_minutes == (match stored {
            Some(s) => match s.daily_study_budget_minutes {
                Some(m) => m,
                None => 60,
            },
            None => 60,
        }),
{
    match stored {
        Some(s) => PlanDefaults {
            exam_target: match s.exam_target {
                Some(t) => t,
                None => "BECE".to_string(),
            },
            exam_target_date: match s.exam_target_date {
                Some(d) => d,
                None => date_after_days(30),
            },
            daily_study_budget_minutes: match s.daily_study_budget_minutes {
                Some(m) => m,
                None => 60,
            },
        },
        None => PlanDefaults {
            exam_target: "BECE".to_string(),
            exam_target_date: date_after_days(30),
            daily_study_budget_minutes: 60,
        },
    }
}

/// The place of a mastery state on the scale from unseen (0) to exam ready (7), or -1
/// for a name that is no mastery state.
pub open spec fn mastery_rank(state: Seq<char>) -> int {
    if state == "unseen"@ { 0 }
    else if state == "exposed"@ { 1 }
    else if state == "emerging"@ { 2 }
    else if state == "fragile"@ { 3 }
    else if state == "partial"@ { 4 }
    else if state == "stable"@ { 5 }
    else if state == "robust"@ { 6 }
    else if state == "exam_ready"@ { 7 }
    else { -1 }
}

/// Each band of the basis-point scale names its own mastery state: 9000 to 10000 exam
/// ready, 7800 to 8999 robust, 6500 to 7799 stable, 5000 to 6499 partial, 3200 to 4999
/// fragile, 1500 to 3199 emerging, 1 to 1499 exposed, and any score outside 1 to 10000
/// unseen.
pub proof fn mastery_states_follow_the_score_bands(score: int)
    ensures
        9000 <= score <= 10000 ==> mastery_state_name(score) == "exam_ready"@,
        7800 <= score <= 8999 ==> mastery_state_name(score) == "robust"@,
        6500 <= score <= 7799 ==> mastery_state_name(score) == "stable"@,
        5000 <= score <= 6499 ==> mastery_state_name(score) == "partial"@,
        3200 <= score <= 4999 ==> mastery_state_name(score) == "fragile"@,
        1500 <= score <= 3199 ==> mastery_state_name(score) == "emerging"@,
        1 <= score <= 1499 ==> mastery_state_name(score) == "exposed"@,
        (score <= 0 || score > 10000) ==> mastery_state_name(score) == "unseen"@,
{
}

/// Each of the eight mastery state names has its own place on the scale.
proof fn mastery_names_take_their_places()
    ensures
        mastery_rank("unseen"@) == 0,
        mastery_rank("exposed"@) == 1,
        mastery_rank("emerging"@) == 2,
        mastery_rank("fragile"@) == 3,
        mastery_rank("partial"@) == 4,
        mastery_rank("stable"@) == 5,
        mastery_rank("robust"@) == 6,
        mastery_rank("exam_ready"@) == 7,
{
    reveal_strlit("unseen");
    reveal_strlit("exposed");
    reveal_strlit("emerging");
    reveal_strlit("fragile");
    reveal_strlit("partial");
    reveal_strlit("stable");
    reveal_strlit("robust");
    reveal_strlit("exam_ready");
    assert("unseen"@.len() == 6 && "unseen"@[0] == 'u');
    assert("exposed"@.len() == 7 && "exposed"@[0] == 'e');
    assert("emerging"@.len() == 8 && "emerging"@[0] == 'e');
    assert("fragile"@.len() == 7 && "fragile"@[0] == 'f');
    assert("partial"@.len() == 7 && "partial"@[0] == 'p');
    assert("stable"@.len() == 6 && "stable"@[0] == 's');
    assert("robust"@.len() == 6 && "robust"@[0] == 'r');
    assert("exam_ready"@.len() == 10 && "exam_ready"@[0] == 'e');
}

/// A higher score never names a lower mastery state, and every score up to 10000 names
/// one of the eight states.
pub proof fn mastery_state_rises_with_score(low: int, high: int)
    requires
        0 <= low <= high <= 10000,
    ensures
        0 <= mastery_rank(mastery_state_name(low)) <= mastery_rank(mastery_state_name(high)) <= 7,
{
    mastery_names_take_their_places();
}

/// Fragility is the largest of three weaknesses, each held to 0 to 10000: instability
/// (10000 less stability), the pressure gap (mastery above pressure) and the flexibility
/// gap (mastery above flexibility). It is never below any of them and is one of them.
pub proof fn fragility_is_the_largest_weakness(a: DiagnosticTopicAnalytics)
    ensures
        ({
            let f = fragility_spec(a);
            let instability = clamp_bp_spec(10_000 - a.stability_score as int);
            let pressure_gap = clamp_bp_spec(a.mastery_score as int - a.pressure_score as int);
            let flexibility_gap = clamp_bp_spec(a.mastery_score as int - a.flexibility_score as int);
            &&& 0 <= f <= 10_000
            &&& instability <= f && pressure_gap <= f && flexibility_gap <= f
            &&& f == instability || f == pressure_gap || f == flexibility_gap
        }),
{
}

/// A topic's trend is critical below 3500 mastery; from there, fragile at 6500 fragility
/// or more; otherwise improving from 7000 mastery and stable below it.
pub proof fn trend_follows_mastery_then_fragility(a: DiagnosticTopicAnalytics)
    ensures
        a.mastery_score < 3500 ==> trend_state_name(a) == "critical"@,
        a.mastery_score >= 3500 && fragility_spec(a) >= 6500 ==> trend_state_name(a) == "fragile"@,
        a.mastery_score >= 7000 && fragility_spec(a) < 6500 ==> trend_state_name(a) == "improving"@,
        3500 <= a.mastery_score < 7000 && fragility_spec(a) < 6500 ==> trend_state_name(a) == "stable"@,
{
}

/// Repair priority stays within 0 to 10000. Below the cap it is the mastery gap, plus half
/// the fragility, plus a third of the top hypothesis' confidence; a top hypothesis never
/// lowers it, and neither does a lower mastery with everything else unchanged.
pub proof fn repair_priority_weighs_gap_fragility_and_confidence(
    a: DiagnosticTopicAnalytics,
    weaker: DiagnosticTopicAnalytics,
    top: Option<DiagnosticRootCauseHypothesis>,
)
    requires
        weaker == (DiagnosticTopicAnalytics { mastery_score: weaker.mastery_score, ..a }),
        weaker.mastery_score <= a.mastery_score,
    ensures
        0 <= repair_priority_spec(a, top) <= 10_000,
        a.mastery_score <= 10_000 && (10_000 - a.mastery_score) + fragility_spec(a) / 2 + conf_of(top) / 3 <= 10_000
            ==> repair_priority_spec(a, top) == (10_000 - a.mastery_score) + fragility_spec(a) / 2 + conf_of(top) / 3,
        repair_priority_spec(a, None) <= repair_priority_spec(a, top),
        repair_priority_spec(a, top) <= repair_priority_spec(weaker, top),
{
}

/// A critical topic (mastery below 3500) is reviewed the next day; otherwise a top
/// hypothesis of timed pressure breakdown, transfer fragility or a misconception brings the
/// review to two days; otherwise mastery below 6500 or fragility from 5500 brings it to
/// three; everything else waits a week. No topic waits longer than a week.
pub proof fn review_comes_sooner_for_weaker_topics(a: DiagnosticTopicAnalytics, top: Option<DiagnosticRootCauseHypothesis>)
    ensures
        a.mastery_score < 3500 ==> review_offset_spec(a, top) == 1,
        a.mastery_score >= 3500 && (code_is(top, "timed_pressure_breakdown"@) || code_is(top, "transfer_fragility"@)
            || code_is(top, "misconception_root_cause"@)) ==> review_offset_spec(a, top) == 2,
        a.mastery_score >= 3500 && top is None && (a.mastery_score < 6500 || fragility_spec(a) >= 5500)
            ==> review_offset_spec(a, top) == 3,
        a.mastery_score >= 6500 && fragility_spec(a) < 5500 && top is None ==> review_offset_spec(a, top) == 7,
        1 <= review_offset_spec(a, top) <= 7,
        review_offset_spec(a, top) == 1 <==> a.mastery_score < 3500,
{
}

/// A topic blocks the coach when its mastery is below 4500, its fragility reaches 6500, or
/// its top hypothesis names a foundation gap, a misconception, a timed pressure breakdown
/// or transfer fragility; without a hypothesis, a topic with mastery from 4500 and fragility
/// below 6500 does not block. Every critical or fragile topic blocks.
pub proof fn weak_topics_block_the_coach(a: DiagnosticTopicAnalytics, top: Option<DiagnosticRootCauseHypothesis>)
    ensures
        a.mastery_score < 4500 ==> blocked_spec(a, top),
        fragility_spec(a) >= 6500 ==> blocked_spec(a, top),
        code_is(top, "foundation_gap"@) || code_is(top, "misconception_root_cause"@) || code_is(top, "timed_pressure_breakdown"@)
            || code_is(top, "transfer_fragility"@) ==> blocked_spec(a, top),
        top is None && a.mastery_score >= 4500 && fragility_spec(a) < 6500 ==> !blocked_spec(a, top),
        trend_state_name(a) == "critical"@ || trend_state_name(a) == "fragile"@ ==> blocked_spec(a, top),
{
    reveal_strlit("critical");
    reveal_strlit("fragile");
    reveal_strlit("improving");
    reveal_strlit("stable");
    assert("critical"@.len() == 8 && "fragile"@.len() == 7 && "improving"@.len() == 9 && "stable"@.len() == 6);
}

} // verus!

