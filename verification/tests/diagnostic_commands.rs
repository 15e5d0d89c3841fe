use ecoach_commands::diagnostic_commands::{load_plan_defaults, parse_mode, DiagnosticMode, StoredPlanSettings,
    
    clamp_bp, decay_risk_for_analytics, diagnostic_error_scores, fragility_score_for_analytics, mastery_state_for_score,
    plan_diagnostic_sync, repair_priority_for_analytics, review_offset_days, top_hypotheses_by_topic,
    top_hypothesis_index, topic_is_blocked, trend_state_for_analytics, DiagnosticRootCauseHypothesis,
    DiagnosticTopicAnalytics,
};

fn analytics(topic_id: i64, mastery: u16, stability: u16, pressure: u16, flexibility: u16) -> DiagnosticTopicAnalytics {
    DiagnosticTopicAnalytics {
        topic_id,
        topic_name: format!("Topic {}", topic_id),
        classification: "partial".to_string(),
        mastery_score: mastery,
        confidence_score: 6000,
        recommended_action: "review".to_string(),
        endurance_score: 5000,
        weakness_type: None,
        failure_stage: None,
        stability_score: stability,
        pressure_score: pressure,
        flexibility_score: flexibility,
        precision_score: 7000,
        fluency_score: 6000,
    }
}

fn hypothesis(topic_id: i64, code: &str, confidence: u16) -> DiagnosticRootCauseHypothesis {
    DiagnosticRootCauseHypothesis {
        topic_id,
        topic_name: format!("Topic {}", topic_id),
        hypothesis_code: code.to_string(),
        confidence_score: confidence,
        recommended_action: "repair".to_string(),
    }
}

#[test]
fn mastery_states_follow_the_score_bands() {
    assert_eq!(mastery_state_for_score(9500), "exam_ready");
    assert_eq!(mastery_state_for_score(7800), "robust");
    assert_eq!(mastery_state_for_score(6499), "partial");
    assert_eq!(mastery_state_for_score(3200), "fragile");
    assert_eq!(mastery_state_for_score(1499), "exposed");
    assert_eq!(mastery_state_for_score(0), "unseen");
    assert_eq!(clamp_bp(-5), 0);
    assert_eq!(clamp_bp(20_000), 10_000);
}

#[test]
fn fragility_priority_and_decay_formulas() {
    let a = analytics(1, 7000, 6000, 3000, 5000);
    // max(10000 - 6000, 7000 - 3000, 7000 - 5000) = 4000
    let fragility = fragility_score_for_analytics(&a);
    assert_eq!(fragility, 4000);
    assert_eq!(trend_state_for_analytics(&a), "improving");
    // (10000 - 7000) + 4000 / 2 + 3000 / 3 = 6000
    let h = hypothesis(1, "foundation_gap", 3000);
    assert_eq!(repair_priority_for_analytics(&a, Some(&h)), 6000);
    assert_eq!(repair_priority_for_analytics(&a, None), 5000);
    // (10000 - 6000) + 4000 / 3 = 5333
    assert_eq!(decay_risk_for_analytics(&a, fragility), 5333);
    assert_eq!(trend_state_for_analytics(&analytics(1, 3000, 9000, 3000, 3000)), "critical");
}

#[test]
fn review_offsets_and_blocking() {
    let steady = analytics(1, 8000, 9000, 8000, 8000);
    assert_eq!(review_offset_days(&steady, None), 7);
    assert!(!topic_is_blocked(&steady, None));
    let pressure = hypothesis(1, "timed_pressure_breakdown", 7000);
    assert_eq!(review_offset_days(&steady, Some(&pressure)), 2);
    assert!(topic_is_blocked(&steady, Some(&pressure)));
    assert_eq!(review_offset_days(&analytics(1, 3000, 9000, 3000, 3000), None), 1);
    assert_eq!(review_offset_days(&analytics(1, 6000, 9000, 6000, 6000), None), 3);
    assert!(topic_is_blocked(&analytics(1, 4000, 9000, 4000, 4000), None));
}

#[test]
fn error_scores_take_the_top_hypothesis_confidence() {
    let a = analytics(1, 7000, 6000, 3000, 5000);
    let plain = diagnostic_error_scores(&a, None);
    assert_eq!(plain.knowledge_gap_score, 3000);
    assert_eq!(plain.pressure_breakdown_score, 4000);
    assert_eq!(plain.conceptual_confusion_score, 1000);
    assert_eq!(plain.speed_error_score, 1000);
    let h = hypothesis(1, "misconception_root_cause", 8200);
    let with = diagnostic_error_scores(&a, Some(&h));
    assert_eq!(with.conceptual_confusion_score, 8200);
    assert_eq!(with.knowledge_gap_score, 3000);
}

#[test]
fn the_most_confident_hypothesis_wins_each_topic() {
    let hs = vec![
        hypothesis(1, "foundation_gap", 5000),
        hypothesis(2, "transfer_fragility", 6000),
        hypothesis(1, "misconception_root_cause", 7000),
        hypothesis(1, "confidence_distortion", 7000),
    ];
    assert_eq!(top_hypothesis_index(&hs, 1), Some(2));
    assert_eq!(top_hypothesis_index(&hs, 3), None);
    assert_eq!(top_hypotheses_by_topic(&hs), vec![2, 1]);
}

#[test]
fn sync_plan_counts_blocked_topics() {
    let plan = plan_diagnostic_sync(
        &vec![analytics(1, 8000, 9000, 8000, 8000), analytics(2, 4000, 9000, 4000, 4000)],
        &vec![hypothesis(2, "foundation_gap", 6000)],
    );
    assert_eq!(plan.topics.len(), 2);
    assert_eq!(plan.blocker_count, 1);
    assert!(!plan.topics[0].blocked);
    assert!(plan.topics[1].blocked);
    assert_eq!(plan.topics[1].top_hypothesis, Some(0));
}

#[test]
fn launch_modes_and_plan_defaults() {
    assert_eq!(parse_mode("quick"), DiagnosticMode::Quick);
    assert_eq!(parse_mode("deep"), DiagnosticMode::Deep);
    assert_eq!(parse_mode("Deep"), DiagnosticMode::Standard);

    let stored = load_plan_defaults(Some(StoredPlanSettings {
        exam_target: Some("WASSCE".to_string()),
        exam_target_date: Some("2026-06-01".to_string()),
        daily_study_budget_minutes: None,
    }));
    assert_eq!(stored.exam_target, "WASSCE");
    assert_eq!(stored.exam_target_date, "2026-06-01");
    assert_eq!(stored.daily_study_budget_minutes, 60);

    let fresh = load_plan_defaults(None);
    assert_eq!(fresh.exam_target, "BECE");
    assert_eq!(fresh.daily_study_budget_minutes, 60);
    let expected = (chrono::Utc::now().date_naive() + chrono::Duration::days(30)).to_string();
    assert_eq!(fresh.exam_target_date, expected);
    assert_eq!(fresh.exam_target_date.len(), 10);
    assert_eq!(&fresh.exam_target_date[4..5], "-");
}
