use ecoach_commands::dtos::last_active_label;
use ecoach_commands::intake_commands::{detect_subject_code, infer_bundle_source_kind, plan_shared_promotion, subject_code_candidates};
use ecoach_commands::mock_commands::{available_mock_types, mock_question_not_found, plan_first_mock, recommended_mock_type};
use ecoach_commands::readiness_commands::{coverage_counts, SubjectReadinessDto};
use ecoach_commands::error::{CommandError, DomainError};

#[test]
fn activity_label_reads_today_or_days_away() {
    assert_eq!(last_active_label(None), "Never active");
    assert_eq!(last_active_label(Some(3_600)), "Active today");
    assert_eq!(last_active_label(Some(86_399)), "Active today");
    assert_eq!(last_active_label(Some(86_400)), "Away 1 days");
    assert_eq!(last_active_label(Some(3 * 86_400 + 5)), "Away 3 days");
    assert_eq!(last_active_label(Some(-30)), "Active today");
}

#[test]
fn mock_centre_recommendations() {
    assert_eq!(available_mock_types(), vec!["forecast", "diagnostic", "remediation", "final_exam", "shock", "wisdom"]);
    assert_eq!(recommended_mock_type(false, 0).as_deref(), Some("diagnostic"));
    assert_eq!(recommended_mock_type(false, 2).as_deref(), Some("forecast"));
    assert_eq!(recommended_mock_type(true, 0).as_deref(), Some("forecast"));
    let plan = plan_first_mock(4, 5, 0).expect("first mock");
    assert_eq!((plan.duration_minutes, plan.question_count), (60, 20));
    assert_eq!(plan.mock_type.as_deref(), Some("diagnostic"));
    let err = plan_first_mock(4, 5, 1).unwrap_err();
    assert_eq!(err.message, "student already has mock history; use compile_mock instead");
    assert_eq!(
        mock_question_not_found(7, 3, "Query returned no rows").message,
        "question 7 not found in mock 3: Query returned no rows"
    );
}

#[test]
fn readiness_coverage_totals() {
    let subject = |total: usize, mastered: usize| SubjectReadinessDto {
        subject_id: 1,
        subject_name: "Maths".to_string(),
        readiness_band: "building".to_string(),
        total_topic_count: total,
        mastered_topic_count: mastered,
    };
    assert_eq!(coverage_counts(&vec![subject(10, 4), subject(6, 6)]), (16, 10));
    assert_eq!(coverage_counts(&vec![]), (0, 0));
}

#[test]
fn bundle_promotion_details() {
    assert_eq!(infer_bundle_source_kind("past_paper_bundle"), "past_question");
    assert_eq!(infer_bundle_source_kind("class_note_bundle"), "guide");
    assert_eq!(infer_bundle_source_kind("report_card"), "worksheet");
    assert_eq!(infer_bundle_source_kind("mystery"), "worksheet");
    let detected = vec![" Biology ".to_string(), "  ".to_string(), "Maths".to_string()];
    assert_eq!(subject_code_candidates(&detected), vec!["Biology".to_string(), "Maths".to_string()]);
    assert_eq!(detect_subject_code(&vec![None, Some("MTH".to_string()), Some("BIO".to_string())]).as_deref(), Some("MTH"));
    assert_eq!(detect_subject_code(&vec![None]), None);

    let plan = plan_shared_promotion(9, "Biology Class Test", "past_paper_bundle", None, None, Some("/tmp/a.txt".to_string()), None, Some(2024))
        .expect("plan");
    assert_eq!(plan.uploader_account_id, 9);
    assert_eq!(plan.source_kind, "past_question");
    assert_eq!(plan.title, "Vault Candidate: Biology Class Test");
    assert_eq!(plan.academic_year.as_deref(), Some("2024"));
    assert_eq!(plan.language_code.as_deref(), Some("en"));
    let kind = plan_shared_promotion(9, "t", "past_paper_bundle", Some(2), Some("worksheet".to_string()), Some("p".to_string()), None, None)
        .expect("plan");
    assert_eq!(kind.source_kind, "worksheet");
    assert_eq!(kind.uploader_account_id, 2);
    let err = plan_shared_promotion(9, "t", "k", None, None, None, None, None).unwrap_err();
    assert_eq!(err.message, "bundle must contain at least one file to promote");
}

#[test]
fn domain_errors_map_to_codes() {
    let e = CommandError::from_domain(DomainError::NotFound("gone".to_string()));
    assert_eq!(e.code, "not_found");
    assert_eq!(e.message, "gone");
    assert_eq!(CommandError::from_domain(DomainError::Validation("v".to_string())).code, "validation_error");
    assert_eq!(CommandError::from_domain(DomainError::Storage("s".to_string())).code, "storage_error");
}
