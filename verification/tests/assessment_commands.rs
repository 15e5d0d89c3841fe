use ecoach_commands::assessment_commands::{
    paper_asset_slots, past_paper_option_dto, past_paper_question_profile, past_paper_save_result,
    past_paper_section_focus, past_paper_topic_focus, past_paper_topic_format, plan_past_paper_option_sync,
    question_asset_bytes, require_nonempty_upload, require_past_paper, require_past_paper_question_changed,
    require_session_snapshot, require_topic_questions, section_label_or_empty, validate_past_paper_input,
    AdminPastPaperOptionInput, AdminPastPaperQuestionInput, AdminPastPaperSaveInput,
};

fn option(id: Option<i64>, label: &str, text: &str, is_correct: bool) -> AdminPastPaperOptionInput {
    AdminPastPaperOptionInput { option_id: id, option_label: label.to_string(), option_text: text.to_string(), is_correct }
}

fn question(format: &str, stem: &str, options: Vec<AdminPastPaperOptionInput>) -> AdminPastPaperQuestionInput {
    AdminPastPaperQuestionInput {
        question_id: None,
        section_label: "A".to_string(),
        question_number: Some("1".to_string()),
        topic_id: 1,
        subtopic_id: None,
        stem: stem.to_string(),
        question_format: format.to_string(),
        primary_pedagogic_function: None,
        explanation_text: None,
        difficulty_level: None,
        marks: None,
        options,
    }
}

fn paper(questions: Vec<AdminPastPaperQuestionInput>) -> AdminPastPaperSaveInput {
    AdminPastPaperSaveInput {
        paper_id: None,
        subject_id: 1,
        exam_year: 2023,
        paper_code: Some("P1".to_string()),
        title: "Paper 1".to_string(),
        questions,
    }
}

#[test]
fn past_paper_validation_names_the_failing_question() {
    let good = question("mcq", "Solve it.", vec![option(None, "A", "1", true)]);
    assert!(validate_past_paper_input(&paper(vec![good.clone()])).is_ok());

    let mut untitled = paper(vec![]);
    untitled.title = " ".to_string();
    let err = validate_past_paper_input(&untitled).unwrap_err();
    assert_eq!(err.code, "validation");
    assert_eq!(err.message, "title is required");

    let mut old = paper(vec![]);
    old.exam_year = 1970;
    assert_eq!(validate_past_paper_input(&old).unwrap_err().message, "exam_year 1970 is outside the allowed range");

    let mut no_subject = paper(vec![]);
    no_subject.subject_id = 0;
    assert_eq!(validate_past_paper_input(&no_subject).unwrap_err().message, "subject_id is required");

    let empty_stem = question("short_answer", "  ", vec![]);
    assert_eq!(
        validate_past_paper_input(&paper(vec![good.clone(), empty_stem])).unwrap_err().message,
        "question #2 has an empty stem"
    );
    let no_options = question("mcq", "Pick one.", vec![]);
    assert_eq!(
        validate_past_paper_input(&paper(vec![no_options])).unwrap_err().message,
        "MCQ question #1 needs at least one option"
    );
    let no_correct = question("mcq", "Pick one.", vec![option(None, "A", "x", false)]);
    assert_eq!(
        validate_past_paper_input(&paper(vec![good, no_correct])).unwrap_err().message,
        "MCQ question #2 needs a correct option"
    );
}

#[test]
fn question_profile_fills_defaults_by_format() {
    let mcq = past_paper_question_profile(&question("mcq", "q", vec![]));
    assert_eq!((mcq.difficulty_level, mcq.marks, mcq.estimated_time_seconds), (5000, 1, 45));
    let numeric = past_paper_question_profile(&question("numeric", "q", vec![]));
    assert_eq!((numeric.marks, numeric.estimated_time_seconds), (4, 90));
    let mut essay = question("essay", "q", vec![]);
    essay.marks = Some(10);
    essay.difficulty_level = Some(7000);
    let essay = past_paper_question_profile(&essay);
    assert_eq!((essay.difficulty_level, essay.marks, essay.estimated_time_seconds), (7000, 10, 180));
}

#[test]
fn option_sync_keeps_stored_ids_and_removes_the_rest() {
    let options = vec![
        option(Some(11), " A ", " one ", false),
        option(None, "B", "two", true),
        option(Some(99), "C", "three", false),
    ];
    let sync = plan_past_paper_option_sync(&vec![10, 11, 12], &options);
    assert_eq!(sync.writes.len(), 3);
    assert_eq!(sync.writes[0].existing_id, Some(11));
    assert_eq!(sync.writes[0].option_label, "A");
    assert_eq!(sync.writes[0].option_text, "one");
    assert_eq!(sync.writes[0].position, 1);
    assert_eq!(sync.writes[1].existing_id, None);
    assert_eq!(sync.writes[1].is_correct, 1);
    assert_eq!(sync.writes[2].existing_id, None);
    assert_eq!(sync.writes[2].position, 3);
    assert_eq!(sync.removed_ids, vec![10, 12]);
}

#[test]
fn topic_sessions_accept_three_formats() {
    assert_eq!(past_paper_topic_format("objective").unwrap(), "objective");
    assert_eq!(past_paper_topic_format("all").unwrap(), "all");
    let err = past_paper_topic_format("oral").unwrap_err();
    assert_eq!(err.code, "bad_request");
    assert_eq!(err.message, "invalid format 'oral'; expected one of objective|essay|all");

    assert!(require_topic_questions(3, "essay", 1, 2).is_ok());
    assert_eq!(
        require_topic_questions(0, "essay", 1, 2).unwrap_err().message,
        "no essay past-paper questions found for subject 1 / topic 2"
    );
    assert_eq!(past_paper_topic_focus(1, 2, "objective"), "past_paper_topic:1:2:objective");
    assert_eq!(past_paper_section_focus(5, "B"), "past_paper_section:5:B");
}

#[test]
fn missing_records_are_reported_by_id() {
    assert_eq!(require_session_snapshot(4, Some(7)).unwrap(), 7);
    assert_eq!(
        require_session_snapshot::<i64>(4, None).unwrap_err().message,
        "session 4 snapshot was not created"
    );
    assert_eq!(require_past_paper::<i64>(12, None).unwrap_err().message, "past paper 12 not found");
    assert_eq!(
        question_asset_bytes(3, None).unwrap_err().message,
        "asset 3 not found"
    );
    let bytes = question_asset_bytes(3, Some(("image/png".to_string(), vec![1, 2]))).unwrap();
    assert_eq!(bytes.mime_type, "image/png");
    assert_eq!(bytes.bytes, vec![1, 2]);
    assert_eq!(require_past_paper_question_changed(6, 0).unwrap_err().message, "question 6 not found");
    assert_eq!(require_nonempty_upload(0).unwrap_err().message, "uploaded file is empty");
    assert!(require_nonempty_upload(10).is_ok());
}

#[test]
fn paper_read_model_helpers() {
    let result = past_paper_save_result(8, vec![3, 4]);
    assert_eq!(result.question_count, 2);
    assert_eq!(section_label_or_empty(&None), "");
    assert_eq!(section_label_or_empty(&Some("B".to_string())), "B");
    let o = past_paper_option_dto(1, "A".to_string(), "x".to_string(), 1, 2);
    assert!(o.is_correct);

    let slots = paper_asset_slots(&vec![5, 6, 5], &vec![6, 5, 5, 9]);
    assert_eq!(slots, vec![vec![1, 2], vec![0], vec![]]);
}
