use ecoach_commands::product_commands::ARealProfileInputDto;
use ecoach_commands::product_vault::{areal_mode_for, save_areal_profile, select_ocr_recovery_objects, ARealProfileRow, OcrInsightRow};

#[test]
fn companion_mode_follows_the_learner_state() {
    assert_eq!(areal_mode_for("standard", "Building", 0, 0, true, "/uploads/review"), "upload_interpreter");
    assert_eq!(areal_mode_for("standard", "At Risk", 0, 0, false, "/home"), "repair_and_stabilize");
    assert_eq!(areal_mode_for("standard", "Building", 0, 2, false, "/home"), "repair_and_stabilize");
    assert_eq!(areal_mode_for("elite", "Building", 0, 0, false, "/exam/pressure"), "elite_push");
    assert_eq!(areal_mode_for("standard", "Building", 0, 0, false, "/exam"), "steady_progress");
}

#[test]
fn saving_a_profile_keeps_what_is_left_out() {
    let existing = ARealProfileRow {
        tone_style: "warm".to_string(),
        motivation_style: "coach".to_string(),
        urgency_style: "steady".to_string(),
        explanation_style: "simple".to_string(),
        narrative_enabled: true,
    };
    let input = ARealProfileInputDto {
        student_id: 1,
        tone_style: Some("calm".to_string()),
        motivation_style: Some("mentor".to_string()),
        urgency_style: None,
        explanation_style: Some("exam_focused".to_string()),
        narrative_enabled: Some(false),
    };
    let saved = save_areal_profile(&input, &existing);
    assert_eq!(saved.tone_style, "calm");
    assert_eq!(saved.motivation_style, "mentor");
    assert_eq!(saved.urgency_style, "steady");
    assert_eq!(saved.explanation_style, "exam_focused");
    assert!(!saved.narrative_enabled);
}

fn ocr_row(bundle_id: i64, file_id: Option<i64>, status: Option<&str>, reasons: &[&str]) -> OcrInsightRow {
    OcrInsightRow {
        bundle_id,
        student_id: 5,
        student_name: "Yaw".to_string(),
        file_id,
        file_name: Some("scan.png".to_string()),
        document_role: None,
        ocr_status: status.map(|s| s.to_string()),
        layout_status: None,
        layout_kind: None,
        review_priority: None,
        review_reasons: reasons.iter().map(|s| s.to_string()).collect(),
    }
}

#[test]
fn ocr_recovery_takes_each_file_once_up_to_the_limit() {
    let rows = vec![
        ocr_row(1, Some(10), Some("complete"), &["ocr_required"]),
        ocr_row(1, Some(10), Some("required"), &[]),
        ocr_row(1, None, Some("required"), &[]),
        ocr_row(2, Some(20), Some("complete"), &[]),
        ocr_row(2, Some(21), None, &[]),
        ocr_row(3, Some(30), Some("limited"), &[]),
    ];
    let picked = select_ocr_recovery_objects(&rows, 2);
    assert_eq!(picked.len(), 2);
    assert_eq!((picked[0].bundle_id, picked[0].file_id), (1, 10));
    assert_eq!(picked[0].review_priority, "medium");
    assert_eq!((picked[1].bundle_id, picked[1].file_id), (2, 21));
    assert_eq!(picked[1].ocr_status, "unknown");
    assert_eq!(select_ocr_recovery_objects(&rows, 0).len(), 1);
}
