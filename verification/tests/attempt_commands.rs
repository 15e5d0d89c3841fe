use ecoach_commands::attempt_commands::{
    attempt_result, clamp_response_time, completion_result, deferred_recovery_batch, grade_fill_blank,
    grade_multi_correct, grading_route, maybe_inject_deferred_completion_failure, plan_session_completion,
    recover_deferred_completion_sessions, session_progress, skip_coach_brain, skipped_coach_action, validate_attempt_input,
    AnswerOutcome, BlankAnswerRow, CompletionPlan, CompletionSessionView, DeferredAttempt, DeferredCandidate,
    GradingRoute, ProjectedNextAction, SessionSnapshotView, SessionSummaryView, SubmitAttemptInput,
};

fn input() -> SubmitAttemptInput {
    SubmitAttemptInput {
        student_id: 1,
        session_id: 2,
        session_item_id: 3,
        question_id: 4,
        selected_option_id: Some(5),
        response_time_ms: Some(1200),
        confidence_level: None,
        hint_count: 0,
        changed_answer_count: 0,
        skipped: false,
        timed_out: false,
        was_timed: false,
        defer_coach_brain: false,
        selected_option_ids: None,
        blank_answers: None,
    }
}

#[test]
fn attempts_need_exactly_one_outcome() {
    assert!(validate_attempt_input(&input()).is_ok());
    let mut none = input();
    none.selected_option_id = None;
    assert_eq!(
        validate_attempt_input(&none).unwrap_err().message,
        "attempt requires a selected option, skip, or timeout"
    );
    let mut both = none.clone();
    both.skipped = true;
    both.timed_out = true;
    assert_eq!(validate_attempt_input(&both).unwrap_err().message, "attempt cannot be both skipped and timed out");
    let mut mixed = input();
    mixed.skipped = true;
    let err = validate_attempt_input(&mixed).unwrap_err();
    assert_eq!(err.code, "validation_error");
    assert_eq!(err.message, "attempt cannot include both an answer and a non-answer outcome");
}

#[test]
fn negative_response_times_become_zero() {
    assert_eq!(clamp_response_time(Some(-40)), Some(0));
    assert_eq!(clamp_response_time(Some(900)), Some(900));
    assert_eq!(clamp_response_time(None), None);
}

#[test]
fn grading_route_follows_the_answer_shape() {
    assert_eq!(grading_route(&input()), GradingRoute::Standard);
    let mut multi = input();
    multi.selected_option_ids = Some(vec![1, 2]);
    assert_eq!(grading_route(&multi), GradingRoute::MultiCorrect);
    let mut blanks = input();
    blanks.blank_answers = Some(vec!["x".to_string()]);
    assert_eq!(grading_route(&blanks), GradingRoute::FillBlank);
    let mut skipped = multi.clone();
    skipped.selected_option_id = None;
    skipped.skipped = true;
    assert_eq!(grading_route(&skipped), GradingRoute::Standard);
}

#[test]
fn multi_correct_grading_ignores_order_and_repeats() {
    assert!(grade_multi_correct(&vec![3, 1], &vec![1, 3, 3]));
    assert!(!grade_multi_correct(&vec![3, 1], &vec![1]));
    assert!(!grade_multi_correct(&vec![3, 1], &vec![1, 3, 4]));
    assert!(!grade_multi_correct(&vec![], &vec![]));
}

fn row(label: &str, text: &str) -> BlankAnswerRow {
    BlankAnswerRow { option_label: label.to_string(), option_text: text.to_string() }
}

#[test]
fn fill_blank_grading_trims_and_ignores_case() {
    let rows = vec![row(" 1 ", "Paris"), row("2", "Seine"), row("2", "river seine")];
    assert!(grade_fill_blank(&rows, &vec!["  PARIS ".to_string(), "River Seine".to_string()]));
    assert!(!grade_fill_blank(&rows, &vec!["paris".to_string(), "Thames".to_string()]));
    assert!(!grade_fill_blank(&rows, &vec!["paris".to_string(), "".to_string()]));
    assert!(grade_fill_blank(&vec![row("1", "ÉCOLE")], &vec!["école".to_string()]));
}

#[test]
fn fill_blank_grading_ignores_case_and_spacing() {
    let rows = vec![row("1", "Paris")];
    for answer in ["paris", "  PaRiS ", "PARIS\t"] {
        assert!(grade_fill_blank(&rows, &vec![answer.to_string()]));
    }
    assert!(!grade_fill_blank(&rows, &vec!["pari s".to_string()]));
}

#[test]
fn fill_blank_grading_needs_every_authored_blank() {
    let rows = vec![row("1", "Paris"), row("2", "Seine")];
    assert!(!grade_fill_blank(&rows, &vec![]));
    assert!(!grade_fill_blank(&rows, &vec!["paris".to_string()]));
    assert!(!grade_fill_blank(&rows, &vec!["paris".to_string(), "seine".to_string(), "extra".to_string()]));
    assert!(grade_fill_blank(&rows, &vec!["paris".to_string(), "seine".to_string()]));
    assert!(!grade_fill_blank(&vec![row("x", "Paris")], &vec!["paris".to_string()]));
    assert!(!grade_fill_blank(&vec![row("0", "Paris"), row("1", "Seine")], &vec!["seine".to_string()]));
}

#[test]
fn session_progress_counts_engaged_items() {
    let snap = SessionSnapshotView {
        status: "active".to_string(),
        item_statuses: vec!["answered".to_string(), "skipped".to_string(), "pending".to_string()],
    };
    let p = session_progress(&Some(snap));
    assert_eq!((p.answered, p.total, p.complete), (2, 3, false));
    let done = SessionSnapshotView { status: "active".to_string(), item_statuses: vec!["timed_out".to_string()] };
    assert!(session_progress(&Some(done)).complete);
    let none = session_progress(&None);
    assert_eq!((none.answered, none.total, none.complete), (0, 0, false));
}

#[test]
fn coach_brain_skip_and_placeholder_action() {
    assert!(skip_coach_brain(true, &None));
    assert!(skip_coach_brain(false, &Some("1".to_string())));
    assert!(!skip_coach_brain(false, &Some("0".to_string())));
    let action = skipped_coach_action();
    assert_eq!(action.title, "Open coach overview");
    assert_eq!(action.route, "/coach");
}

#[test]
fn attempt_result_reports_progress_and_next_action() {
    let outcome = AnswerOutcome {
        attempt_id: 9,
        is_correct: true,
        explanation: None,
        correct_option_text: Some("4".to_string()),
        selected_option_text: "4".to_string(),
        misconception_info: None,
        error_type: None,
        diagnosis_summary: None,
        recommended_action: None,
        updated_mastery: 5000,
        updated_gap: 1000,
    };
    let progress = session_progress(&Some(SessionSnapshotView {
        status: "active".to_string(),
        item_statuses: vec!["answered".to_string(), "pending".to_string()],
    }));
    let r = attempt_result(outcome, true, progress, skipped_coach_action());
    assert_eq!(r.selected_option_text.as_deref(), Some("4"));
    assert_eq!(r.session_answered, 1);
    assert_eq!(r.session_remaining, 1);
    assert_eq!(r.next_action_type, "ViewOverview");
}

#[test]
fn completion_plan_checks_owner_and_state() {
    let session = |state: &str| {
        Some(CompletionSessionView { student_id: 1, status: "active".to_string(), deferred_completion_state: state.to_string() })
    };
    assert_eq!(plan_session_completion(&session("processed"), 1, 8).unwrap(), CompletionPlan::ReplayProjection);
    assert_eq!(plan_session_completion(&session("idle"), 1, 8).unwrap(), CompletionPlan::Run { deferred: false });
    assert_eq!(plan_session_completion(&session("pending"), 1, 8).unwrap(), CompletionPlan::Run { deferred: true });
    assert_eq!(plan_session_completion(&None, 1, 8).unwrap_err().message, "session 8 not found");
    assert_eq!(
        plan_session_completion(&session("idle"), 2, 8).unwrap_err().message,
        "session 8 does not belong to student 2"
    );
}

#[test]
fn completion_result_prefers_the_projection() {
    let summary = || SessionSummaryView {
        session_id: 3,
        answered_questions: 10,
        correct_questions: 7,
        accuracy_score: Some(7000),
        status: "completed".to_string(),
    };
    let projected = ProjectedNextAction {
        action_type: "StartRepair".to_string(),
        title: "Repair fractions".to_string(),
        route: "/repair".to_string(),
    };
    let r = completion_result(summary(), Some(projected), skipped_coach_action());
    assert_eq!(r.next_action_type, "StartRepair");
    let r = completion_result(summary(), None, skipped_coach_action());
    assert_eq!(r.next_action_type, "ViewOverview");
    assert_eq!(r.accuracy_score, Some(7000));
}

#[test]
fn failure_injection_matches_stage_and_session() {
    assert!(maybe_inject_deferred_completion_failure("commit", 5, "other", &None, true).is_ok());
    let err = maybe_inject_deferred_completion_failure("commit", 5, "commit", &None, true).unwrap_err();
    assert_eq!(err.code, "chaos_injected");
    assert_eq!(err.message, "injected deferred completion failure at stage=commit for session 5");
    assert!(maybe_inject_deferred_completion_failure("commit", 5, "commit", &Some("6".to_string()), true).is_ok());
    assert!(maybe_inject_deferred_completion_failure("commit", 5, "commit", &Some("5".to_string()), true).is_err());
    assert!(maybe_inject_deferred_completion_failure("commit", 5, "commit", &Some("any".to_string()), true).is_err());
    assert!(maybe_inject_deferred_completion_failure("commit", 5, "commit", &None, false).is_ok());
}

fn candidate(id: i64, state: &str) -> DeferredCandidate {
    DeferredCandidate { session_id: id, deferred_completion_state: state.to_string() }
}

#[test]
fn recovery_accounts_for_every_attempt() {
    let batch = deferred_recovery_batch(vec![candidate(1, "pending"), candidate(2, "processed"), candidate(3, "pending")], Some(2));
    assert_eq!(batch.len(), 2);
    let attempts = vec![
        DeferredAttempt { candidate: candidate(1, "pending"), succeeded: true },
        DeferredAttempt { candidate: candidate(2, "processed"), succeeded: false },
        DeferredAttempt { candidate: candidate(3, "failed"), succeeded: false },
    ];
    let r = recover_deferred_completion_sessions(5, &attempts);
    assert_eq!(r.attempted, 3);
    assert_eq!(r.recovered_session_ids, vec![1]);
    assert_eq!(r.skipped_session_ids, vec![2]);
    assert_eq!(r.failed_session_ids, vec![3]);
    assert_eq!(r.succeeded + r.failed + r.skipped, r.attempted);
    assert_eq!(r.remaining, 2);
}
