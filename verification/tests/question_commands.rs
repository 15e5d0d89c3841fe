use ecoach_commands::question_commands::{
    active_flag, admin_question_list_query, archive_admin_question, bulk_move_target, bulk_update_admin_questions,
    confidence_score, get_admin_question_bank_stats, get_admin_question_editor, get_admin_question_editor_any,
    plan_admin_question_upsert, plan_bulk_question_action, require_question_changed, restore_admin_question,
    validate_admin_question_input, AdminBulkAction, AdminQuestionActivityRow, AdminQuestionBankCounts,
    AdminQuestionBulkActionInput, AdminQuestionCountDto, AdminQuestionEditorRow, AdminQuestionListFilter,
    AdminQuestionOptionDto, AdminQuestionOptionInput, AdminQuestionUpsertInput,
};

fn option(label: &str, text: &str, is_correct: bool) -> AdminQuestionOptionInput {
    AdminQuestionOptionInput {
        id: None,
        option_label: label.to_string(),
        option_text: text.to_string(),
        is_correct,
        misconception_id: None,
        distractor_intent: None,
        position: None,
    }
}

fn mcq_input(stem: &str) -> AdminQuestionUpsertInput {
    let mut input = AdminQuestionUpsertInput::existing(7, 1, 2);
    input.question_id = None;
    input.stem = stem.to_string();
    input.options = vec![option(" A ", " 5 ", true), option("B", "6", false)];
    input
}

#[test]
fn existing_input_carries_authoring_defaults() {
    let input = AdminQuestionUpsertInput::existing(11, 3, 4);
    assert_eq!(input.question_id, Some(11));
    assert_eq!(input.subject_id, 3);
    assert_eq!(input.topic_id, 4);
    assert_eq!(input.question_format, "mcq");
    assert_eq!(input.difficulty_level, 5000);
    assert_eq!(input.estimated_time_seconds, 30);
    assert_eq!(input.marks, 1);
    assert_eq!(input.source_type, "authored");
    assert!(input.stem.is_empty());
    assert!(input.options.is_empty());
}

#[test]
fn validation_reports_each_rule_in_order() {
    let mut blank = mcq_input("   ");
    blank.stem = "  \t ".to_string();
    let err = validate_admin_question_input(&blank).unwrap_err();
    assert_eq!(err.code, "validation_error");
    assert_eq!(err.message, "question stem is required");

    let mut format = mcq_input("What is 2 + 3?");
    format.question_format = "essay".to_string();
    assert_eq!(validate_admin_question_input(&format).unwrap_err().message, "unsupported question format: essay");

    let mut source = mcq_input("What is 2 + 3?");
    source.source_type = "scraped".to_string();
    assert_eq!(validate_admin_question_input(&source).unwrap_err().message, "unsupported source type: scraped");

    let mut few = mcq_input("What is 2 + 3?");
    few.options.truncate(1);
    assert_eq!(validate_admin_question_input(&few).unwrap_err().message, "mcq questions need at least two options");

    let mut two_correct = mcq_input("What is 2 + 3?");
    two_correct.options[1].is_correct = true;
    assert_eq!(
        validate_admin_question_input(&two_correct).unwrap_err().message,
        "mcq questions need exactly one correct option"
    );

    let mut unlabeled = mcq_input("What is 2 + 3?");
    unlabeled.options[1].option_label = " ".to_string();
    assert_eq!(
        validate_admin_question_input(&unlabeled).unwrap_err().message,
        "answer options need labels and text"
    );

    let mut short = mcq_input("Name a prime.");
    short.question_format = "short_answer".to_string();
    short.options.clear();
    assert!(validate_admin_question_input(&short).is_ok());
}

#[test]
fn upsert_plan_trims_and_numbers_options() {
    let mut input = mcq_input("  What is 2 + 3?  ");
    input.options[1].position = Some(9);
    let plan = plan_admin_question_upsert(&input).expect("valid input");
    assert_eq!(plan.stem, "What is 2 + 3?");
    assert_eq!(plan.options.len(), 2);
    assert_eq!(plan.options[0].option_label, "A");
    assert_eq!(plan.options[0].option_text, "5");
    assert_eq!(plan.options[0].is_correct, 1);
    assert_eq!(plan.options[0].position, 1);
    assert_eq!(plan.options[1].is_correct, 0);
    assert_eq!(plan.options[1].position, 9);
}

#[test]
fn unchanged_update_reads_as_missing_question() {
    assert!(require_question_changed(5, 1).is_ok());
    let err = require_question_changed(5, 0).unwrap_err();
    assert_eq!(err.code, "not_found");
    assert_eq!(err.message, "question 5 was not found");
}

#[test]
fn confidence_is_held_to_basis_points() {
    assert_eq!(confidence_score(-4), 0);
    assert_eq!(confidence_score(7_300), 7_300);
    assert_eq!(confidence_score(12_000), 10_000);
    assert_eq!(active_flag(true), 1);
    assert_eq!(active_flag(false), 0);
}

fn editor_row(is_active_flag: i64) -> AdminQuestionEditorRow {
    AdminQuestionEditorRow {
        question_id: 9,
        subject_id: 1,
        topic_id: 2,
        subtopic_id: None,
        family_id: Some(3),
        stem: "Archived content editor record.".to_string(),
        question_format: "mcq".to_string(),
        explanation_text: None,
        difficulty_level: 4000,
        estimated_time_seconds: 45,
        marks: 1,
        source_type: "authored".to_string(),
        source_ref: None,
        exam_year: None,
        primary_knowledge_role: None,
        primary_cognitive_demand: None,
        primary_solve_pattern: None,
        primary_pedagogic_function: None,
        primary_content_grain: None,
        cognitive_level: None,
        review_status: "unclassified".to_string(),
        machine_confidence_raw: 12_500,
        is_active_flag,
    }
}

fn editor_options() -> Vec<AdminQuestionOptionDto> {
    vec![
        AdminQuestionOptionDto {
            id: 1,
            option_label: "A".to_string(),
            option_text: "Keep".to_string(),
            is_correct: true,
            misconception_id: None,
            distractor_intent: None,
            position: 1,
        },
        AdminQuestionOptionDto {
            id: 2,
            option_label: "B".to_string(),
            option_text: "Drop".to_string(),
            is_correct: false,
            misconception_id: None,
            distractor_intent: None,
            position: 2,
        },
    ]
}

#[test]
fn editor_hides_archived_questions_unless_asked() {
    let err = get_admin_question_editor(9, Some(editor_row(0)), editor_options()).unwrap_err();
    assert_eq!(err.code, "not_found");
    assert_eq!(err.message, "question 9 was not found");

    let archived = get_admin_question_editor_any(9, Some(editor_row(0)), editor_options()).expect("archived editor");
    assert_eq!(archived.question_id, 9);
    assert!(!archived.is_active);
    assert_eq!(archived.stem, "Archived content editor record.");
    assert_eq!(archived.options.len(), 2);
    assert_eq!(archived.machine_confidence_score, 10_000);

    let active = get_admin_question_editor(9, Some(editor_row(1)), editor_options()).expect("active editor");
    assert!(active.is_active);

    assert!(get_admin_question_editor_any(9, None, Vec::new()).is_err());
}

#[test]
fn archive_and_restore_report_the_row_read_back() {
    let row = AdminQuestionActivityRow { question_id: 4, is_active_flag: 0, updated_at: "2026-01-01 10:00:00".to_string() };
    let archived = archive_admin_question(4, 1, Ok(row)).expect("archived");
    assert!(!archived.is_active);
    assert_eq!(archived.updated_at, "2026-01-01 10:00:00");

    let restored = restore_admin_question(
        4,
        1,
        Ok(AdminQuestionActivityRow { question_id: 4, is_active_flag: 1, updated_at: "later".to_string() }),
    )
    .expect("restored");
    assert!(restored.is_active);

    let missing = archive_admin_question(8, 0, Err("unused".to_string())).unwrap_err();
    assert_eq!(missing.message, "question 8 was not found");
    let storage = restore_admin_question(8, 1, Err("disk I/O error".to_string())).unwrap_err();
    assert_eq!(storage.code, "storage_error");
    assert_eq!(storage.message, "disk I/O error");
}

#[test]
fn bulk_action_normalizes_the_request() {
    let plan = plan_bulk_question_action(&AdminQuestionBulkActionInput {
        question_ids: vec![5, -2, 3, 5, 0, 1],
        action: "  ARCHIVE ".to_string(),
        subject_id: None,
        topic_id: None,
    })
    .expect("archive plan");
    assert_eq!(plan.action, AdminBulkAction::Archive);
    assert_eq!(plan.question_ids, vec![1, 3, 5]);

    let unsupported = plan_bulk_question_action(&AdminQuestionBulkActionInput {
        question_ids: vec![1],
        action: "delete".to_string(),
        subject_id: None,
        topic_id: None,
    })
    .unwrap_err();
    assert_eq!(unsupported.message, "unsupported bulk question action: delete");

    let none = plan_bulk_question_action(&AdminQuestionBulkActionInput {
        question_ids: vec![0, -1],
        action: "restore".to_string(),
        subject_id: None,
        topic_id: None,
    })
    .unwrap_err();
    assert_eq!(none.message, "at least one question is required");

    let no_topic = plan_bulk_question_action(&AdminQuestionBulkActionInput {
        question_ids: vec![2],
        action: "Move".to_string(),
        subject_id: Some(1),
        topic_id: None,
    })
    .unwrap_err();
    assert_eq!(no_topic.message, "topic_id is required for bulk move");
}

#[test]
fn bulk_move_checks_the_topic_subject() {
    assert_eq!(bulk_move_target(3, Some(1), Some(1)).unwrap(), (1, 3));
    assert_eq!(bulk_move_target(3, None, Some(2)).unwrap(), (2, 3));
    let missing = bulk_move_target(3, None, None).unwrap_err();
    assert_eq!(missing.code, "not_found");
    assert_eq!(missing.message, "topic 3 was not found");
    let foreign = bulk_move_target(3, Some(7), Some(1)).unwrap_err();
    assert_eq!(foreign.code, "validation_error");
    assert_eq!(foreign.message, "topic 3 does not belong to subject 7");
}

#[test]
fn bulk_tally_counts_updates_and_activity() {
    let plan = plan_bulk_question_action(&AdminQuestionBulkActionInput {
        question_ids: vec![1, 2],
        action: "move".to_string(),
        subject_id: Some(1),
        topic_id: Some(3),
    })
    .expect("move plan");
    let moved = bulk_update_admin_questions(&plan, &vec![1, 1], &vec![Some(1), Some(1)]).expect("tally");
    assert_eq!(moved.requested_count, 2);
    assert_eq!(moved.updated_count, 2);
    assert_eq!(moved.active_count, 2);
    assert_eq!(moved.archived_count, 0);

    let archived = bulk_update_admin_questions(&plan, &vec![1, 1], &vec![Some(0), Some(1)]).expect("tally");
    assert_eq!(archived.active_count + archived.archived_count, archived.requested_count);
    assert_eq!(archived.archived_count, 1);

    let missing = bulk_update_admin_questions(&plan, &vec![1, 0], &vec![Some(1), Some(1)]).unwrap_err();
    assert_eq!(missing.message, "question 2 was not found");
    let unread = bulk_update_admin_questions(&plan, &vec![1, 1], &vec![None, Some(1)]).unwrap_err();
    assert_eq!(unread.message, "question 1 was not found");
}

#[test]
fn list_query_turns_search_into_a_pattern() {
    let query = admin_question_list_query(&AdminQuestionListFilter {
        search: Some("  Bulk organize ".to_string()),
        subject_id: None,
        topic_id: None,
        review_status: None,
        source_type: None,
        active_status: Some("archived".to_string()),
        limit: 0,
    });
    assert_eq!(query.search_pattern.as_deref(), Some("%Bulk organize%"));
    assert_eq!(query.active_status, "archived");
    assert_eq!(query.limit, 1);

    let blank = admin_question_list_query(&AdminQuestionListFilter {
        search: Some("   ".to_string()),
        subject_id: None,
        topic_id: None,
        review_status: None,
        source_type: None,
        active_status: Some("weird".to_string()),
        limit: 20,
    });
    assert_eq!(blank.search_pattern, None);
    assert_eq!(blank.active_status, "active");
    assert_eq!(blank.limit, 20);
}

#[test]
fn bank_stats_keep_counts_and_breakdowns() {
    let counts = AdminQuestionBankCounts {
        total_questions: 3,
        active_questions: 2,
        total_options: 8,
        total_attempts: 5,
        family_count: 1,
        installed_pack_count: 1,
        source_upload_count: 0,
        pending_review_count: 2,
        approved_review_count: 1,
    };
    let by_format = vec![AdminQuestionCountDto { label: "mcq".to_string(), count: 2 }];
    let stats = get_admin_question_bank_stats(counts, by_format, Vec::new(), Vec::new());
    assert_eq!(stats.total_questions, 3);
    assert_eq!(stats.active_questions, 2);
    assert_eq!(stats.by_format[0].label, "mcq");
    assert!(stats.by_review_status.is_empty());
}
