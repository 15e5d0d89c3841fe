use ecoach_commands::coach_commands::{CoachActionType, CoachNextAction, LearnerJourneyState};
use ecoach_commands::product_surfaces::{
    build_student_audience_explanations, build_student_directives, EvidenceFabricView, JudgmentView, LearnerTruthView,
};

fn truth(pending: i64, due: i64, diagnoses: &[&str]) -> LearnerTruthView {
    LearnerTruthView {
        student_id: 7,
        student_name: "Esi".to_string(),
        overall_mastery_score: 5200,
        pending_review_count: pending,
        due_memory_count: due,
        recent_diagnoses: diagnoses.iter().map(|d| d.to_string()).collect(),
        memory_summary_count: 3,
    }
}

fn judgment(risk: &str) -> JudgmentView {
    JudgmentView {
        independence_band: "guided".to_string(),
        biggest_risk: risk.to_string(),
        next_best_move: "Repair fractions".to_string(),
        judgment_confidence_score: 6400,
        capability_review_count: 1,
    }
}

fn next_action() -> CoachNextAction {
    CoachNextAction {
        state: LearnerJourneyState::RepairRequired,
        action_type: CoachActionType::StartRepair,
        title: "Repair fractions".to_string(),
        subtitle: "Two gaps to close".to_string(),
        estimated_minutes: Some(20),
        route: "/repair".to_string(),
    }
}

#[test]
fn student_directives_lead_with_the_next_move_and_add_protection() {
    let calm = build_student_directives(&truth(0, 0, &[]), "Building", LearnerJourneyState::RepairRequired, &next_action(), &judgment("pace"));
    assert!(!calm.is_empty());
    assert_eq!(calm[0].primary_action, "/repair");
    assert_eq!(calm[0].title, "Repair fractions");

    let busy = build_student_directives(
        &truth(3, 2, &["concept confusion between ratios"]),
        "Building",
        LearnerJourneyState::RepairRequired,
        &next_action(),
        &judgment("Weak Foundation in fractions"),
    );
    let types: Vec<&str> = busy.iter().map(|d| d.directive_type.as_str()).collect();
    assert!(types.contains(&"queue_review"));
    assert!(types.contains(&"insert_reactivation_now"));
    assert!(types.contains(&"rescue_foundation_first"));
    assert!(types.contains(&"run_contrast_block"));
    let review = busy.iter().find(|d| d.directive_type == "queue_review").unwrap();
    assert!(review.summary.starts_with("3 review items are still open"));
}

#[test]
fn student_surface_explains_itself_to_parents() {
    let explanations = build_student_audience_explanations(
        &truth(1, 0, &[]),
        "Fragile",
        &judgment("pace"),
        &EvidenceFabricView { evidence_record_count: 42, signal_count: 5 },
    );
    let parent = explanations.iter().find(|e| e.audience == "parent").expect("parent explanation");
    assert!(parent.summary.contains("42 evidence records"));
    assert_eq!(explanations.len(), 3);
}
