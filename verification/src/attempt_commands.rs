//! Grading, validation and bookkeeping of the attempt and session-completion commands.

use vstd::prelude::*;

use crate::coach_commands::{action_type_label, action_type_name, CoachActionType, CoachNextAction, LearnerJourneyState};
use crate::error::CommandError;
use crate::text::{ascii_text, lower_of, lemma_trimmed_ascii, decimal_text, i64_text, is_blank, parse_i64, parsed_int, to_lowercase, trim, trimmed, unicode_lower, text_eq};

verus! {

/// Input for the submit_attempt hot path.
/// This is the primary command the frontend calls when a student answers a question.
#[derive(Clone, Debug)]
pub struct SubmitAttemptInput {
    pub student_id: i64,
    pub session_id: i64,
    pub session_item_id: i64,
    pub question_id: i64,
    pub selected_option_id: Option<i64>,
    pub response_time_ms: Option<i64>,
    pub confidence_level: Option<String>,
    pub hint_count: i64,
    pub changed_answer_count: i64,
    pub skipped: bool,
    pub timed_out: bool,
    pub was_timed: bool,
    pub defer_coach_brain: bool,
    /// Multi-correct MCQ: all option ids the student selected. When
    /// present, `submit_attempt` grades by set equality against the
    /// question's `is_correct` options and overrides the legacy
    /// single-option correctness check.
    pub selected_option_ids: Option<Vec<i64>>,
    /// Fill-in-the-blank: student's entered text per blank, ordered by
    /// blank index (1-based). Each blank is graded against the
    /// question_options rows whose `option_label` matches its index —
    /// case- and whitespace-insensitive match against any row is
    /// correct. A blank entry of "" (empty string) grades as incorrect.
    pub blank_answers: Option<Vec<String>>,
}

/// Comprehensive result DTO returned after the full hot path completes.
/// Contains everything the frontend needs to render feedback and next steps.
#[derive(Clone, Debug)]
pub struct AttemptResultDto {
    pub attempt_id: i64,

    // Answer feedback
    pub is_correct: bool,
    pub explanation: Option<String>,
    pub correct_option_text: Option<String>,
    pub selected_option_text: Option<String>,
    pub misconception_info: Option<String>,

    // Error diagnosis (if wrong)
    pub error_type: Option<String>,
    pub diagnosis_summary: Option<String>,
    pub recommended_action: Option<String>,

    // Updated learner state
    pub updated_mastery: i64,
    pub updated_gap: i64,

    // Session progress
    pub session_answered: i64,
    pub session_remaining: i64,
    pub session_complete: bool,

    // Coach next action (step 8)
    pub next_action_type: String,
    pub next_action_title: String,
    pub next_action_route: String,
}

/// Simplified version for session completion that triggers the session-end pipeline (Section 7.5).
///
/// 1. Finalize counted-time truth
/// 2. Close open session segments
/// 3. Update plan adherence
/// 4. Compute session summary
/// 5. Recompute readiness deltas
/// 6. Recompute review queue and next coach action
/// 7. Emit parent/admin digest deltas
#[derive(Clone, Debug)]
pub struct SessionCompletionResultDto {
    pub session_id: i64,
    pub answered_questions: i64,
    pub correct_questions: i64,
    pub accuracy_score: Option<i64>,
    pub status: String,
    pub next_action_type: String,
    pub next_action_title: String,
    pub next_action_route: String,
}

#[derive(Clone, Debug)]
pub struct DeferredCompletionRecoveryResultDto {
    pub attempted: i64,
    pub succeeded: i64,
    pub failed: i64,
    pub skipped: i64,
    pub remaining: i64,
    pub recovered_session_ids: Vec<i64>,
    pub failed_session_ids: Vec<i64>,
    pub skipped_session_ids: Vec<i64>,
}

/// Why an attempt payload is refused, if it is: an answer, a skip or a timeout is
/// required, and exactly one of them.
pub open spec fn attempt_input_problem(input: SubmitAttemptInput) -> Option<Seq<char>> {
    if input.selected_option_id is None && !input.skipped && !input.timed_out {
        Some("attempt requires a selected option, skip, or timeout"@)
    } else if input.skipped && input.timed_out {
        Some("attempt cannot be both skipped and timed out"@)
    } else if input.selected_option_id is Some && (input.skipped || input.timed_out) {
        Some("attempt cannot include both an answer and a non-answer outcome"@)
    } else {
        None
    }
}

/// Checks the shape of an attempt before anything is written.
pub fn validate_attempt_input(input: &SubmitAttemptInput) -> (r: Result<(), CommandError>)
    ensures
        r is Ok <==> attempt_input_problem(*input) is None,
        r matches Err(e) ==> e.code@ == "validation_error"@ && Some(e.message@)
            == attempt_input_problem(*input),
{
    if input.selected_option_id.is_none() && !input.skipped && !input.timed_out {
        return Err(
            CommandError::new(
                "validation_error",
                "attempt requires a selected option, skip, or timeout".to_string(),
            ),
        );
    }
    if input.skipped && input.timed_out {
        return Err(
            CommandError::new(
                "validation_error",
                "attempt cannot be both skipped and timed out".to_string(),
            ),
        );
    }
    if input.selected_option_id.is_some() && (input.skipped || input.timed_out) {
        return Err(
            CommandError::new(
                "validation_error",
                "attempt cannot include both an answer and a non-answer outcome".to_string(),
            ),
        );
    }
    Ok(())
}

/// Response times are recorded as given, with negative values raised to zero.
pub fn clamp_response_time(response_time_ms: Option<i64>) -> (r: Option<i64>)
    ensures
        r == (match response_time_ms {
            Some(v) => Some(if v < 0 { 0i64 } else { v }),
            None => None,
        }),
{
    match response_time_ms {
        Some(v) => Some(if v < 0 { 0 } else { v }),
        None => None,
    }
}

/// Which server-side grader applies to an attempt.
#[derive(Clone, Copy, Debug, PartialEq, Eq)]
pub enum GradingRoute {
    /// The student model grades the single selected option.
    Standard,
    /// Fill-in-the-blank answers are graded here.
    FillBlank,
    /// A multi-select answer is graded here by set equality.
    MultiCorrect,
}

/// Skips and timeouts are never graded here; blank answers take precedence over a
/// multi-select list.
pub open spec fn grading_route_of(input: SubmitAttemptInput) -> GradingRoute {
    if input.skipped || input.timed_out {
        GradingRoute::Standard
    } else if input.blank_answers is Some {
        GradingRoute::FillBlank
    } else if input.selected_option_ids is Some {
        GradingRoute::MultiCorrect
    } else {
        GradingRoute::Standard
    }
}

/// How an attempt is graded: here for multi-select and fill-in answers, by the student model otherwise.
pub fn grading_route(input: &SubmitAttemptInput) -> (r: GradingRoute)
    ensures
        r == grading_route_of(*input),
{
    if input.skipped || input.timed_out {
        GradingRoute::Standard
    } else if input.blank_answers.is_some() {
        GradingRoute::FillBlank
    } else if input.selected_option_ids.is_some() {
        GradingRoute::MultiCorrect
    } else {
        GradingRoute::Standard
    }
}

/// A multi-select answer is right when the question has correct options and the
/// selection is exactly that set.
pub open spec fn multi_correct_matches(correct: Seq<i64>, selected: Seq<i64>) -> bool {
    correct.len() > 0 && correct.to_set() == selected.to_set()
}

/// Whether the list holds the id.
pub fn vec_has_id(v: &Vec<i64>, x: i64) -> (r: bool)
    ensures
        r == v@.contains(x),
{
    let mut i: usize = 0;
    while i < v.len()
        invariant
            i <= v.len(),
            forall|k: int| 0 <= k < i ==> v@[k] != x,
        decreases v.len() - i,
    {
        if v[i] == x {
            assert(v@[i as int] == x);
            return true;
        }
        i = i + 1;
    }
    false
}

/// `true` when every id of `a` occurs in `b`.
pub fn ids_within(a: &Vec<i64>, b: &Vec<i64>) -> (r: bool)
    ensures
        r == (forall|x: i64| a@.contains(x) ==> b@.contains(x)),
{
    let mut i: usize = 0;
    while i < a.len()
        invariant
            i <= a.len(),
            forall|k: int| 0 <= k < i ==> b@.contains(#[trigger] a@[k]),
        decreases a.len() - i,
    {
        if !vec_has_id(b, a[i]) {
            assert(a@.contains(a@[i as int]));
            return false;
        }
        i = i + 1;
    }
    assert forall|x: i64| a@.contains(x) implies b@.contains(x) by {
        let k = choose|k: int| 0 <= k < a@.len() && a@[k] == x;
    }
    true
}

/// Grades a multi-select answer against the ids of the question's correct options.
pub fn grade_multi_correct(correct_ids: &Vec<i64>, selected_ids: &Vec<i64>) -> (r: bool)
    ensures
        r == multi_correct_matches(correct_ids@, selected_ids@),
{
    if correct_ids.len() == 0 {
        return false;
    }
    let a = ids_within(correct_ids, selected_ids);
    let b = ids_within(selected_ids, correct_ids);
    proof {
        if a && b {
            assert(correct_ids@.to_set() =~= selected_ids@.to_set());
        }
        if correct_ids@.to_set() == selected_ids@.to_set() {
            assert forall|x: i64| correct_ids@.contains(x) implies selected_ids@.contains(x) by {
                assert(correct_ids@.to_set().contains(x));
            }
            assert forall|x: i64| selected_ids@.contains(x) implies correct_ids@.contains(x) by {
                assert(selected_ids@.to_set().contains(x));
            }
        }
    }
    a && b
}

/// An authored answer row of a fill-in-the-blank question: the blank it belongs to
/// (its label) and one accepted text.
#[derive(Clone, Debug)]
pub struct BlankAnswerRow {
    pub option_label: String,
    pub option_text: String,
}

/// Answers compare after trimming and lowercasing: ASCII text lowercases letter by
/// letter, other text by Unicode's case mapping.
pub open spec fn normalized_answer(s: Seq<char>) -> Seq<char> {
    let t = trimmed(s);
    if ascii_text(t) { lower_of(t) } else { unicode_lower(t) }
}

/// The row accepts `text` for blank number `index` (counted from one).
pub open spec fn row_accepts(row: BlankAnswerRow, index: int, text: Seq<char>) -> bool {
    &&& parsed_int(trimmed(row.option_label@)) == Some(index)
    &&& normalized_answer(row.option_text@).len() > 0
    &&& normalized_answer(row.option_text@) == text
}

/// The row contributes an accepted answer to some blank.
pub open spec fn row_usable(row: BlankAnswerRow) -> bool {
    &&& parsed_int(trimmed(row.option_label@)) is Some
    &&& normalized_answer(row.option_text@).len() > 0
}

/// The blank an authored row answers is within the blanks given: its label names
/// a blank from one to `count`.
pub open spec fn row_within(row: BlankAnswerRow, count: int) -> bool {
    parsed_int(trimmed(row.option_label@)) matches Some(k) && 1 <= k <= count
}

/// Every authored blank is answered acceptably: the question has at least one usable
/// answer row, every usable row names a blank among those answered, and each answer is
/// non-empty and accepted by some row for its blank. An empty answer list, or one
/// shorter than the authored blanks, grades as incorrect.
pub open spec fn fill_blank_correct(rows: Seq<BlankAnswerRow>, blanks: Seq<String>) -> bool {
    &&& exists|j: int| 0 <= j < rows.len() && row_usable(#[trigger] rows[j])
    &&& forall|j: int| 0 <= j < rows.len() && row_usable(#[trigger] rows[j]) ==> row_within(rows[j], blanks.len() as int)
    &&& forall|i: int|
        0 <= i < blanks.len() ==> {
            let n = normalized_answer(#[trigger] blanks[i]@);
            n.len() > 0 && exists|j: int|
                0 <= j < rows.len() && row_accepts(#[trigger] rows[j], i + 1, n)
        }
}

/// The label and normalized text a row contributes, when it contributes one.
pub fn usable_row(row: &BlankAnswerRow) -> (r: Option<(i64, String)>)
    ensures
        r is Some <==> row_usable(*row),
        r matches Some(p) ==> parsed_int(trimmed(row.option_label@)) == Some(p.0 as int)
            && p.1@ == normalized_answer(row.option_text@),
{
    let label = trim(row.option_label.as_str());
    match parse_i64(label.as_str()) {
        Some(idx) => {
            let t = trim(row.option_text.as_str());
            let n = to_lowercase(t.as_str());
            if n.unicode_len() == 0 {
                None
            } else {
                Some((idx, n))
            }
        },
        None => None,
    }
}

/// Grades fill-in-the-blank answers against the question's authored answer rows: every
/// authored blank must be answered with an accepted text, ignoring case and surrounding
/// white space.
pub fn grade_fill_blank(rows: &Vec<BlankAnswerRow>, blanks: &Vec<String>) -> (r: bool)
    ensures
        r == fill_blank_correct(rows@, blanks@),
{
    let mut accept: Vec<(i64, String)> = Vec::new();
    let mut j: usize = 0;
    while j < rows.len()
        invariant
            j <= rows.len(),
            forall|k: int|
                #![trigger accept@[k]]
                0 <= k < accept.len() ==> exists|m: int|
                    0 <= m < j && row_accepts(#[trigger] rows@[m], accept@[k].0 as int, accept@[k].1@),
            forall|m: int|
                0 <= m < j && #[trigger] row_usable(rows@[m]) ==> exists|k: int|
                    0 <= k < accept.len() && row_accepts(rows@[m], accept@[k].0 as int, accept@[k].1@),
        decreases rows.len() - j,
    {
        let u = usable_row(&rows[j]);
        let ghost old_accept = accept@;
        if let Some(p) = u {
            accept.push(p);
            assert(row_accepts(rows@[j as int], accept@[accept.len() - 1].0 as int, accept@[accept.len() - 1].1@));
        }
        proof {
            assert forall|m: int|
                0 <= m < j + 1 && #[trigger] row_usable(rows@[m]) implies exists|k: int|
                    0 <= k < accept.len() && row_accepts(rows@[m], accept@[k].0 as int, accept@[k].1@) by {
                if m < j {
                    let k = choose|k: int| 0 <= k < old_accept.len() && row_accepts(rows@[m], old_accept[k].0 as int, old_accept[k].1@);
                    assert(accept@[k] == old_accept[k]);
                } else {
                    let k = accept.len() - 1;
                    assert(row_accepts(rows@[m], accept@[k].0 as int, accept@[k].1@));
                }
            }
            assert forall|k: int|
                #![trigger accept@[k]]
                0 <= k < accept.len() implies exists|m: int|
                    0 <= m < j + 1 && row_accepts(#[trigger] rows@[m], accept@[k].0 as int, accept@[k].1@) by {
                if k < old_accept.len() {
                    assert(accept@[k] == old_accept[k]);
                    let m = choose|m: int| 0 <= m < j && row_accepts(#[trigger] rows@[m], old_accept[k].0 as int, old_accept[k].1@);
                } else {
                    assert(row_accepts(rows@[j as int], accept@[k].0 as int, accept@[k].1@));
                }
            }
        }
        j = j + 1;
    }
    if accept.len() == 0 {
        proof {
            assert forall|m: int| 0 <= m < rows.len() implies !row_usable(#[trigger] rows@[m]) by {}
        }
        return false;
    }
    proof {
        let m = choose|m: int| 0 <= m < rows.len() && row_accepts(#[trigger] rows@[m], accept@[0].0 as int, accept@[0].1@);
        assert(row_usable(rows@[m]));
    }
    let mut r: usize = 0;
    while r < accept.len()
        invariant
            r <= accept.len(),
            forall|k: int|
                #![trigger accept@[k]]
                0 <= k < accept.len() ==> exists|m: int|
                    0 <= m < rows.len() && row_accepts(#[trigger] rows@[m], accept@[k].0 as int, accept@[k].1@),
            forall|q: int| 0 <= q < r ==> 1 <= #[trigger] accept@[q].0 <= blanks.len(),
        decreases accept.len() - r,
    {
        if accept[r].0 < 1 || (accept[r].0 as u64) > (blanks.len() as u64) {
            proof {
                let m = choose|m: int| 0 <= m < rows.len() && row_accepts(#[trigger] rows@[m], accept@[r as int].0 as int, accept@[r as int].1@);
                assert(row_usable(rows@[m]));
                assert(!row_within(rows@[m], blanks.len() as int));
            }
            return false;
        }
        r = r + 1;
    }
    proof {
        assert forall|m: int| 0 <= m < rows.len() && #[trigger] row_usable(rows@[m]) implies row_within(rows@[m], blanks.len() as int) by {
            let k = choose|k: int| 0 <= k < accept.len() && row_accepts(rows@[m], accept@[k].0 as int, accept@[k].1@);
            assert(1 <= accept@[k].0 <= blanks.len());
        }
    }
    let mut i: usize = 0;
    while i < blanks.len()
        invariant
            i <= blanks.len(),
            exists|m: int| 0 <= m < rows.len() && row_usable(#[trigger] rows@[m]),
            forall|m: int| 0 <= m < rows.len() && #[trigger] row_usable(rows@[m]) ==> row_within(rows@[m], blanks.len() as int),
            forall|k: int|
                #![trigger accept@[k]]
                0 <= k < accept.len() ==> exists|m: int|
                    0 <= m < rows.len() && row_accepts(#[trigger] rows@[m], accept@[k].0 as int, accept@[k].1@),
            forall|m: int|
                0 <= m < rows.len() && #[trigger] row_usable(rows@[m]) ==> exists|k: int|
                    0 <= k < accept.len() && row_accepts(rows@[m], accept@[k].0 as int, accept@[k].1@),
            forall|q: int|
                0 <= q < i ==> {
                    let n = normalized_answer(#[trigger] blanks@[q]@);
                    n.len() > 0 && exists|m: int|
                        0 <= m < rows.len() && row_accepts(#[trigger] rows@[m], q + 1, n)
                },
        decreases blanks.len() - i,
    {
        let t = trim(blanks[i].as_str());
        let n = to_lowercase(t.as_str());
        if n.unicode_len() == 0 {
            return false;
        }
        let mut found = false;
        let mut k: usize = 0;
        while k < accept.len()
            invariant
                k <= accept.len(),
                n@ == normalized_answer(blanks@[i as int]@),
                i < blanks.len(),
                found ==> exists|q: int| 0 <= q < accept.len() && accept@[q].0 == i + 1 && accept@[q].1@ == n@,
                !found ==> forall|q: int| 0 <= q < k ==> !(accept@[q].0 == i + 1 && accept@[q].1@ == n@),
            decreases accept.len() - k,
        {
            if !found && accept[k].0 >= 1 && (accept[k].0 as u64) == (i as u64) + 1 && text_eq(accept[k].1.as_str(), n.as_str()) {
                found = true;
            }
            k = k + 1;
        }
        if !found {
            proof {
                assert forall|m: int| 0 <= m < rows.len() implies !row_accepts(#[trigger] rows@[m], i + 1, n@) by {
                    if row_accepts(rows@[m], i + 1, n@) {
                        assert(row_usable(rows@[m]));
                        let q = choose|q: int| 0 <= q < accept.len() && row_accepts(rows@[m], accept@[q].0 as int, accept@[q].1@);
                    }
                }
            }
            return false;
        }
        proof {
            let q = choose|q: int| 0 <= q < accept.len() && accept@[q].0 == i + 1 && accept@[q].1@ == n@;
            let m = choose|m: int| 0 <= m < rows.len() && row_accepts(#[trigger] rows@[m], accept@[q].0 as int, accept@[q].1@);
            assert(row_accepts(rows@[m], i + 1, n@));
        }
        i = i + 1;
    }
    true
}

/// Session items count as engaged once answered, skipped or timed out.
pub open spec fn is_engaged(status: Seq<char>) -> bool {
    status == "answered"@ || status == "skipped"@ || status == "timed_out"@
}

pub open spec fn engaged_count(items: Seq<String>) -> int
    decreases items.len(),
{
    if items.len() == 0 {
        0
    } else {
        engaged_count(items.drop_last()) + if is_engaged(items.last()@) { 1int } else { 0int }
    }
}

/// The engaged count lies between zero and the number of items.
pub proof fn lemma_engaged_count_bounds(items: Seq<String>)
    ensures
        0 <= engaged_count(items) <= items.len(),
    decreases items.len(),
{
    if items.len() > 0 {
        lemma_engaged_count_bounds(items.drop_last());
    }
}

/// What the session snapshot says after an answer: its status and the status of each item.
#[derive(Clone, Debug)]
pub struct SessionSnapshotView {
    pub status: String,
    pub item_statuses: Vec<String>,
}

/// Progress of the session an attempt belongs to.
#[derive(Clone, Copy, Debug)]
pub struct SessionProgress {
    pub answered: i64,
    pub total: i64,
    pub complete: bool,
}

pub open spec fn progress_of(snapshot: Option<SessionSnapshotView>) -> (int, int, bool) {
    match snapshot {
        Some(s) => {
            let answered = engaged_count(s.item_statuses@);
            let total = s.item_statuses@.len() as int;
            (answered, total, s.status@ == "completed"@ || (total > 0 && answered >= total))
        },
        None => (0, 0, false),
    }
}

/// Counts engaged items; a session is complete when its status says so or every item
/// is engaged. Without a snapshot nothing is engaged.
pub fn session_progress(snapshot: &Option<SessionSnapshotView>) -> (r: SessionProgress)
    requires
        snapshot matches Some(s) ==> s.item_statuses@.len() <= i64::MAX,
    ensures
        (r.answered as int, r.total as int, r.complete) == progress_of(*snapshot),
{
    match snapshot {
        None => SessionProgress { answered: 0, total: 0, complete: false },
        Some(snap) => {
            let mut answered: i64 = 0;
            let mut i: usize = 0;
            while i < snap.item_statuses.len()
                invariant
                    i <= snap.item_statuses.len(),
                    snap.item_statuses@.len() <= i64::MAX,
                    answered as int == engaged_count(snap.item_statuses@.take(i as int)),
                    answered <= i,
                decreases snap.item_statuses.len() - i,
            {
                let st = snap.item_statuses[i].as_str();
                let engaged = text_eq(st, "answered") || text_eq(st, "skipped") || text_eq(st, "timed_out");
                assert(snap.item_statuses@.take(i + 1).drop_last() =~= snap.item_statuses@.take(i as int));
                if engaged {
                    answered = answered + 1;
                }
                i = i + 1;
            }
            assert(snap.item_statuses@.take(snap.item_statuses.len() as int) =~= snap.item_statuses@);
            let total = snap.item_statuses.len() as i64;
            let complete = text_eq(snap.status.as_str(), "completed") || (total > 0 && answered >= total);
            SessionProgress { answered, total, complete }
        },
    }
}

/// The coach brain is skipped when the caller deferred it or the perf switch is set to `1`.
pub fn skip_coach_brain(defer_coach_brain: bool, perf_switch: &Option<String>) -> (r: bool)
    ensures
        r == (defer_coach_brain || (perf_switch matches Some(v) && v@ == "1"@)),
{
    if defer_coach_brain {
        return true;
    }
    match perf_switch {
        Some(v) => text_eq(v.as_str(), "1"),
        None => false,
    }
}

/// The stand-in next action reported when the coach brain is skipped.
pub fn skipped_coach_action() -> (r: CoachNextAction)
    ensures
        r.state == LearnerJourneyState::ReadyForTodayMission,
        r.action_type == CoachActionType::ViewOverview,
        r.title@ == "Open coach overview"@,
        r.subtitle@ == "Skipped during perf isolation"@,
        r.estimated_minutes is None,
        r.route@ == "/coach"@,
{
    CoachNextAction {
        state: LearnerJourneyState::ReadyForTodayMission,
        action_type: CoachActionType::ViewOverview,
        title: "Open coach overview".to_string(),
        subtitle: "Skipped during perf isolation".to_string(),
        estimated_minutes: None,
        route: "/coach".to_string(),
    }
}

/// What the learner model reports after processing an answer.
#[derive(Clone, Debug)]
pub struct AnswerOutcome {
    pub attempt_id: i64,
    pub is_correct: bool,
    pub explanation: Option<String>,
    pub correct_option_text: Option<String>,
    pub selected_option_text: String,
    pub misconception_info: Option<String>,
    pub error_type: Option<String>,
    pub diagnosis_summary: Option<String>,
    pub recommended_action: Option<String>,
    pub updated_mastery: i64,
    pub updated_gap: i64,
}

/// Builds the attempt feedback from the learner model's outcome, the session progress
/// and the coach's next action. The selected option's text is reported only when an
/// option was selected.
pub fn attempt_result(
    outcome: AnswerOutcome,
    option_selected: bool,
    progress: SessionProgress,
    next_action: CoachNextAction,
) -> (r: AttemptResultDto)
    requires
        0 <= progress.answered <= progress.total,
    ensures
        r.attempt_id == outcome.attempt_id,
        r.is_correct == outcome.is_correct,
        r.explanation == outcome.explanation,
        r.correct_option_text == outcome.correct_option_text,
        option_selected ==> r.selected_option_text == Some(outcome.selected_option_text),
        !option_selected ==> r.selected_option_text is None,
        r.misconception_info == outcome.misconception_info,
        r.error_type == outcome.error_type,
        r.diagnosis_summary == outcome.diagnosis_summary,
        r.recommended_action == outcome.recommended_action,
        r.updated_mastery == outcome.updated_mastery,
        r.updated_gap == outcome.updated_gap,
        r.session_answered == progress.answered,
        r.session_remaining == progress.total - progress.answered,
        r.session_complete == progress.complete,
        r.next_action_type@ == action_type_name(next_action.action_type),
        r.next_action_title == next_action.title,
        r.next_action_route == next_action.route,
{
    AttemptResultDto {
        attempt_id: outcome.attempt_id,
        is_correct: outcome.is_correct,
        explanation: outcome.explanation,
        correct_option_text: outcome.correct_option_text,
        selected_option_text: if option_selected { Some(outcome.selected_option_text) } else { None },
        misconception_info: outcome.misconception_info,
        error_type: outcome.error_type,
        diagnosis_summary: outcome.diagnosis_summary,
        recommended_action: outcome.recommended_action,
        updated_mastery: outcome.updated_mastery,
        updated_gap: outcome.updated_gap,
        session_answered: progress.answered,
        session_remaining: progress.total - progress.answered,
        session_complete: progress.complete,
        next_action_type: action_type_label(next_action.action_type),
        next_action_title: next_action.title,
        next_action_route: next_action.route,
    }
}

/// The session a completion request names, as stored.
#[derive(Clone, Debug)]
pub struct CompletionSessionView {
    pub student_id: i64,
    pub status: String,
    pub deferred_completion_state: String,
}

/// How a completion request is carried out.
#[derive(Clone, Copy, Debug, PartialEq, Eq)]
pub enum CompletionPlan {
    /// The deferred work already ran: report from the stored projection.
    ReplayProjection,
    /// Run the pipeline; `deferred` when it finishes a deferred completion.
    Run { deferred: bool },
}

pub open spec fn completion_plan_of(
    session: Option<CompletionSessionView>,
    student_id: i64,
) -> Option<CompletionPlan> {
    match session {
        None => None,
        Some(s) => if s.student_id != student_id {
            None
        } else if s.deferred_completion_state@ == "processed"@ {
            Some(CompletionPlan::ReplayProjection)
        } else {
            Some(CompletionPlan::Run { deferred: s.deferred_completion_state@ != "idle"@ })
        },
    }
}

/// Decides how to complete a session: it must exist and belong to the student; a
/// processed deferral is replayed, anything but `idle` is finished as a deferral.
pub fn plan_session_completion(
    session: &Option<CompletionSessionView>,
    student_id: i64,
    session_id: i64,
) -> (r: Result<CompletionPlan, CommandError>)
    ensures
        r is Ok <==> completion_plan_of(*session, student_id) is Some,
        r matches Ok(p) ==> completion_plan_of(*session, student_id) == Some(p),
        r matches Err(e) ==> (session is None ==> e.code@ == "not_found"@ && e.message@
            == "session "@ + decimal_text(session_id as int) + " not found"@),
        r matches Err(e) ==> (session matches Some(s) ==> e.code@ == "validation_error"@
            && e.message@ == "session "@ + decimal_text(session_id as int)
            + " does not belong to student "@ + decimal_text(student_id as int)),
{
    match session {
        None => {
            let m = "session ".to_string().concat(i64_text(session_id).as_str()).concat(" not found");
            Err(CommandError::new("not_found", m))
        },
        Some(s) => {
            if s.student_id != student_id {
                let m = "session ".to_string().concat(i64_text(session_id).as_str()).concat(
                    " does not belong to student ",
                ).concat(i64_text(student_id).as_str());
                Err(CommandError::new("validation_error", m))
            } else if text_eq(s.deferred_completion_state.as_str(), "processed") {
                Ok(CompletionPlan::ReplayProjection)
            } else {
                Ok(CompletionPlan::Run { deferred: !text_eq(s.deferred_completion_state.as_str(), "idle") })
            }
        },
    }
}

/// What closing a session reports.
#[derive(Clone, Debug)]
pub struct SessionSummaryView {
    pub session_id: i64,
    pub answered_questions: i64,
    pub correct_questions: i64,
    pub accuracy_score: Option<i64>,
    pub status: String,
}

/// A next action already projected for the student: type, title and route as stored.
#[derive(Clone, Debug)]
pub struct ProjectedNextAction {
    pub action_type: String,
    pub title: String,
    pub route: String,
}

/// The completion result, reporting the projected next action when there is one and
/// the freshly resolved one otherwise.
pub fn completion_result(
    summary: SessionSummaryView,
    projected: Option<ProjectedNextAction>,
    resolved: CoachNextAction,
) -> (r: SessionCompletionResultDto)
    ensures
        r.session_id == summary.session_id,
        r.answered_questions == summary.answered_questions,
        r.correct_questions == summary.correct_questions,
        r.accuracy_score == summary.accuracy_score,
        r.status == summary.status,
        projected matches Some(p) ==> r.next_action_type == p.action_type && r.next_action_title
            == p.title && r.next_action_route == p.route,
        projected is None ==> r.next_action_type@ == action_type_name(resolved.action_type)
            && r.next_action_title == resolved.title && r.next_action_route == resolved.route,
{
    let (t, title, route) = match projected {
        Some(p) => (p.action_type, p.title, p.route),
        None => (action_type_label(resolved.action_type), resolved.title, resolved.route),
    };
    SessionCompletionResultDto {
        session_id: summary.session_id,
        answered_questions: summary.answered_questions,
        correct_questions: summary.correct_questions,
        accuracy_score: summary.accuracy_score,
        status: summary.status,
        next_action_type: t,
        next_action_title: title,
        next_action_route: route,
    }
}

/// The fault-injection switch used to rehearse failures of deferred completion: it
/// fires at the configured stage, for the configured session when one parses.
pub open spec fn injection_fires(
    stage: Seq<char>,
    session_id: i64,
    configured_stage: Seq<char>,
    configured_session: Option<Seq<char>>,
) -> bool {
    &&& configured_stage == stage
    &&& match configured_session {
        Some(v) => match parsed_int(v) {
            Some(target) => target == session_id as int,
            None => true,
        },
        None => true,
    }
}

/// Fails on purpose at a configured completion stage, for one session or for all, so
/// that recovery can be exercised. Only builds with debug assertions inject failures
/// (`debug_build`); other builds always succeed.
pub fn maybe_inject_deferred_completion_failure(
    stage: &str,
    session_id: i64,
    configured_stage: &str,
    configured_session: &Option<String>,
    debug_build: bool,
) -> (r: Result<(), CommandError>)
    ensures
        r is Err <==> debug_build && injection_fires(
            stage@,
            session_id,
            configured_stage@,
            match configured_session {
                Some(v) => Some(v@),
                None => None,
            },
        ),
        r matches Err(e) ==> e.code@ == "chaos_injected"@ && e.message@
            == "injected deferred completion failure at stage="@ + stage@ + " for session "@
            + decimal_text(session_id as int),
{
    if !debug_build || !text_eq(configured_stage, stage) {
        return Ok(());
    }
    match configured_session {
        Some(v) => match parse_i64(v.as_str()) {
            Some(target) => {
                if target != session_id {
                    return Ok(());
                }
            },
            None => {},
        },
        None => {},
    }
    let m = "injected deferred completion failure at stage=".to_string().concat(stage).concat(
        " for session ",
    ).concat(i64_text(session_id).as_str());
    Err(CommandError::new("chaos_injected", m))
}

/// A session waiting for deferred completion work.
#[derive(Clone, Debug)]
pub struct DeferredCandidate {
    pub session_id: i64,
    pub deferred_completion_state: String,
}

/// The candidates a recovery pass works on: all of them, or the first `max_sessions`.
pub fn deferred_recovery_batch(candidates: Vec<DeferredCandidate>, max_sessions: Option<usize>) -> (r: Vec<DeferredCandidate>)
    ensures
        r@ == (match max_sessions {
            Some(m) => if m < candidates@.len() { candidates@.take(m as int) } else { candidates@ },
            None => candidates@,
        }),
{
    let mut candidates = candidates;
    if let Some(m) = max_sessions {
        candidates.truncate(m);
    }
    candidates
}

/// One attempted recovery: the candidate and whether its pipeline succeeded.
#[derive(Clone, Debug)]
pub struct DeferredAttempt {
    pub candidate: DeferredCandidate,
    pub succeeded: bool,
}

pub open spec fn attempt_ids_where(attempts: Seq<DeferredAttempt>, kind: int) -> Seq<i64>
    decreases attempts.len(),
{
    if attempts.len() == 0 {
        Seq::empty()
    } else {
        let rest = attempt_ids_where(attempts.drop_last(), kind);
        let a = attempts.last();
        let k = if a.succeeded { 0int } else if a.candidate.deferred_completion_state@ == "processed"@ { 2int } else { 1int };
        if k == kind { rest.push(a.candidate.session_id) } else { rest }
    }
}

/// Tallies a recovery pass. A failed attempt on a session that was already processed
/// counts as skipped; `remaining` is what the pass left of all candidates.
pub fn recover_deferred_completion_sessions(
    total_candidates: usize,
    attempts: &Vec<DeferredAttempt>,
) -> (r: DeferredCompletionRecoveryResultDto)
    requires
        total_candidates <= i64::MAX,
        attempts@.len() <= i64::MAX,
    ensures
        r.attempted == attempts@.len(),
        r.recovered_session_ids@ == attempt_ids_where(attempts@, 0),
        r.failed_session_ids@ == attempt_ids_where(attempts@, 1),
        r.skipped_session_ids@ == attempt_ids_where(attempts@, 2),
        r.succeeded == r.recovered_session_ids@.len(),
        r.failed == r.failed_session_ids@.len(),
        r.skipped == r.skipped_session_ids@.len(),
        r.remaining == (if total_candidates >= attempts@.len() { total_candidates - attempts@.len() } else { 0 }),
{
    let mut recovered: Vec<i64> = Vec::new();
    let mut failed: Vec<i64> = Vec::new();
    let mut skipped: Vec<i64> = Vec::new();
    let mut i: usize = 0;
    while i < attempts.len()
        invariant
            i <= attempts.len(),
            recovered@ == attempt_ids_where(attempts@.take(i as int), 0),
            failed@ == attempt_ids_where(attempts@.take(i as int), 1),
            skipped@ == attempt_ids_where(attempts@.take(i as int), 2),
            recovered@.len() + failed@.len() + skipped@.len() == i,
        decreases attempts.len() - i,
    {
        let a = &attempts[i];
        assert(attempts@.take(i + 1).drop_last() =~= attempts@.take(i as int));
        if a.succeeded {
            recovered.push(a.candidate.session_id);
        } else if text_eq(a.candidate.deferred_completion_state.as_str(), "processed") {
            skipped.push(a.candidate.session_id);
        } else {
            failed.push(a.candidate.session_id);
        }
        i = i + 1;
    }
    assert(attempts@.take(attempts.len() as int) =~= attempts@);
    let attempted = attempts.len() as i64;
    let total = total_candidates as i64;
    DeferredCompletionRecoveryResultDto {
        attempted,
        succeeded: recovered.len() as i64,
        failed: failed.len() as i64,
        skipped: skipped.len() as i64,
        remaining: if total >= attempted { total - attempted } else { 0 },
        recovered_session_ids: recovered,
        failed_session_ids: failed,
        skipped_session_ids: skipped,
    }
}

/// Multi-correct grading looks at which options were chosen, not at their order or
/// repetition.
pub proof fn multi_correct_grading_ignores_order(correct1: Seq<i64>, correct2: Seq<i64>, selected1: Seq<i64>, selected2: Seq<i64>)
    requires
        correct1.to_set() == correct2.to_set(),
        selected1.to_set() == selected2.to_set(),
        correct1.len() > 0 <==> correct2.len() > 0,
    ensures
        multi_correct_matches(correct1, selected1) == multi_correct_matches(correct2, selected2),
{
}

/// Every attempted recovery is reported exactly once: as recovered, failed or skipped.
pub proof fn recovery_accounts_for_every_attempt(attempts: Seq<DeferredAttempt>)
    ensures
        attempt_ids_where(attempts, 0).len() + attempt_ids_where(attempts, 1).len() + attempt_ids_where(attempts, 2).len()
            == attempts.len(),
    decreases attempts.len(),
{
    if attempts.len() > 0 {
        recovery_accounts_for_every_attempt(attempts.drop_last());
    }
}

/// Fill-in answers are graded without regard to letter case or surrounding white space:
/// ASCII answers that agree once trimmed and lowercased grade alike.
pub proof fn fill_blank_grading_ignores_case_and_spacing(rows: Seq<BlankAnswerRow>, first: Seq<String>, second: Seq<String>)
    requires
        first.len() == second.len(),
        forall|i: int| 0 <= i < first.len() ==> ascii_text((#[trigger] first[i])@) && ascii_text(second[i]@)
            && lower_of(trimmed(first[i]@)) == lower_of(trimmed(second[i]@)),
    ensures
        fill_blank_correct(rows, first) == fill_blank_correct(rows, second),
{
    assert forall|i: int| 0 <= i < first.len() implies normalized_answer((#[trigger] first[i])@) == normalized_answer(second[i]@) by {
        lemma_trimmed_ascii(first[i]@);
        lemma_trimmed_ascii(second[i]@);
    }
    if fill_blank_correct(rows, first) {
        assert forall|i: int| 0 <= i < second.len() implies {
            let n = normalized_answer(#[trigger] second[i]@);
            n.len() > 0 && exists|j: int| 0 <= j < rows.len() && row_accepts(#[trigger] rows[j], i + 1, n)
        } by {
            assert(normalized_answer(first[i]@) == normalized_answer(second[i]@));
        }
    }
    if fill_blank_correct(rows, second) {
        assert forall|i: int| 0 <= i < first.len() implies {
            let n = normalized_answer(#[trigger] first[i]@);
            n.len() > 0 && exists|j: int| 0 <= j < rows.len() && row_accepts(#[trigger] rows[j], i + 1, n)
        } by {
            assert(normalized_answer(first[i]@) == normalized_answer(second[i]@));
        }
    }
}

} // verus!
