use ecoach_commands::attempt_commands::{grade_fill_blank, maybe_inject_deferred_completion_failure, BlankAnswerRow};
use ecoach_commands::product_surfaces::{build_student_insight_cards, JudgmentView, LearnerTruthView};
use ecoach_commands::question_commands::require_question_changed;
use ecoach_commands::text::{contains_text, dedup_strings, is_blank, join_texts, normalize_key, trim};

#[test]
fn trimming_and_blank_follow_unicode_white_space() {
    assert_eq!(trim("\u{3000} a b \n"), "a b");
    assert!(is_blank(" \t\u{a0}"));
    assert!(!is_blank(" x "));
}

#[test]
fn numbers_render_in_base_ten() {
    assert_eq!(require_question_changed(-305, 0).unwrap_err().message, "question -305 was not found");
    let truth = LearnerTruthView {
        student_id: 1,
        student_name: "Esi".to_string(),
        overall_mastery_score: 6100,
        pending_review_count: 2,
        due_memory_count: 1,
        recent_diagnoses: vec!["fraction confusion".to_string(); 12],
        memory_summary_count: 304,
    };
    let judgment = JudgmentView {
        independence_band: "guided".to_string(),
        biggest_risk: "Fractions under pressure".to_string(),
        next_best_move: "Repair fractions".to_string(),
        judgment_confidence_score: 7000,
        capability_review_count: 0,
    };
    let cards = build_student_insight_cards(&truth, "Building", &judgment, None);
    let evidence = cards.iter().find(|c| c.card_key == "evidence_depth").expect("evidence card");
    assert_eq!(evidence.summary, "The learner model is currently backed by 12 recent diagnoses and 304 memory signals.");
}

#[test]
fn configured_session_numbers_are_parsed_with_a_sign() {
    assert!(maybe_inject_deferred_completion_failure("s", 17, "s", &Some("+17".to_string()), true).is_err());
    assert!(maybe_inject_deferred_completion_failure("s", -9, "s", &Some("-9".to_string()), true).is_err());
    assert!(maybe_inject_deferred_completion_failure("s", 9, "s", &Some("-9".to_string()), true).is_ok());
}

#[test]
fn lowercasing_is_unicode_aware() {
    let rows = vec![BlankAnswerRow { option_label: "1".to_string(), option_text: "ÉCOLE Été".to_string() }];
    assert!(grade_fill_blank(&rows, &vec!["école été".to_string()]));
}

#[test]
fn dedup_keeps_first_occurrences() {
    let v: Vec<String> = ["b", "a", "b", "c", "a"].iter().map(|s| s.to_string()).collect();
    assert_eq!(dedup_strings(v), vec!["b".to_string(), "a".to_string(), "c".to_string()]);
    assert_eq!(join_texts(&vec!["x".to_string(), "y".to_string()], " | "), "x | y");
    assert!(contains_text("conceptual confusion", "confusion"));
    assert!(!contains_text("abc", "abd"));
}

#[test]
fn keys_are_normalized() {
    assert_eq!(normalize_key("Exam Ready"), "exam_ready");
    assert_eq!(normalize_key(" A b"), "_a_b");
}
