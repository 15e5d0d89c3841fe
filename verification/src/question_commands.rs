//! Question-bank administration: validation of authored questions, the rows an
//! upsert writes, bulk actions over a set of questions, and the editor read model.

use vstd::prelude::*;
use crate::error::CommandError;
use crate::product_vault::{opt_view, copy_opt};
use crate::text::{blank, trimmed, lower_of, decimal_text, is_blank, trim, to_lower_ascii, text_eq, i64_text, lit, cat};

verus! {

#[derive(Clone, Debug)]
pub struct AdminQuestionOptionInput {
    pub id: Option<i64>,
    pub option_label: String,
    pub option_text: String,
    pub is_correct: bool,
    pub misconception_id: Option<i64>,
    pub distractor_intent: Option<String>,
    pub position: Option<i64>,
}

#[derive(Clone, Debug)]
pub struct AdminQuestionOptionDto {
    pub id: i64,
    pub option_label: String,
    pub option_text: String,
    pub is_correct: bool,
    pub misconception_id: Option<i64>,
    pub distractor_intent: Option<String>,
    pub position: i64,
}

#[derive(Clone, Debug)]
pub struct AdminQuestionUpsertInput {
    pub question_id: Option<i64>,
    pub subject_id: i64,
    pub topic_id: i64,
    pub subtopic_id: Option<i64>,
    pub family_id: Option<i64>,
    pub stem: String,
    pub question_format: String,
    pub explanation_text: Option<String>,
    pub difficulty_level: i64,
    pub estimated_time_seconds: i64,
    pub marks: i64,
    pub source_type: String,
    pub source_ref: Option<String>,
    pub exam_year: Option<i64>,
    pub primary_knowledge_role: Option<String>,
    pub primary_cognitive_demand: Option<String>,
    pub primary_solve_pattern: Option<String>,
    pub primary_pedagogic_function: Option<String>,
    pub primary_content_grain: Option<String>,
    pub cognitive_level: Option<String>,
    pub options: Vec<AdminQuestionOptionInput>,
}

#[derive(Clone, Debug)]
pub struct AdminQuestionUpsertResultDto {
    pub question_id: i64,
    pub stem: String,
    pub option_count: i64,
    pub review_status: String,
    pub machine_confidence_score: i64,
}

#[derive(Clone, Debug)]
pub struct AdminQuestionArchiveResultDto {
    pub question_id: i64,
    pub is_active: bool,
    pub updated_at: String,
}

#[derive(Clone, Debug)]
pub struct AdminQuestionBulkActionInput {
    pub question_ids: Vec<i64>,
    pub action: String,
    pub subject_id: Option<i64>,
    pub topic_id: Option<i64>,
}

#[derive(Clone, Debug)]
pub struct AdminQuestionBulkActionResultDto {
    pub requested_count: i64,
    pub updated_count: i64,
    pub active_count: i64,
    pub archived_count: i64,
}

#[derive(Clone, Debug)]
pub struct AdminQuestionEditorDto {
    pub question_id: i64,
    pub subject_id: i64,
    pub topic_id: i64,
    pub subtopic_id: Option<i64>,
    pub family_id: Option<i64>,
    pub stem: String,
    pub question_format: String,
    pub explanation_text: Option<String>,
    pub difficulty_level: i64,
    pub estimated_time_seconds: i64,
    pub marks: i64,
    pub source_type: String,
    pub source_ref: Option<String>,
    pub exam_year: Option<i64>,
    pub primary_knowledge_role: Option<String>,
    pub primary_cognitive_demand: Option<String>,
    pub primary_solve_pattern: Option<String>,
    pub primary_pedagogic_function: Option<String>,
    pub primary_content_grain: Option<String>,
    pub cognitive_level: Option<String>,
    pub review_status: String,
    pub machine_confidence_score: i64,
    pub is_active: bool,
    pub options: Vec<AdminQuestionOptionDto>,
}

#[derive(Clone, Debug)]
pub struct AdminQuestionListFilter {
    pub search: Option<String>,
    pub subject_id: Option<i64>,
    pub topic_id: Option<i64>,
    pub review_status: Option<String>,
    pub source_type: Option<String>,
    pub active_status: Option<String>,
    pub limit: usize,
}

#[derive(Clone, Debug)]
pub struct AdminQuestionListItemDto {
    pub question_id: i64,
    pub subject_id: i64,
    pub subject_name: String,
    pub topic_id: i64,
    pub topic_name: String,
    pub family_id: Option<i64>,
    pub family_name: Option<String>,
    pub stem: String,
    pub question_format: String,
    pub difficulty_level: i64,
    pub marks: i64,
    pub source_type: String,
    pub review_status: String,
    pub machine_confidence_score: i64,
    pub option_count: i64,
    pub attempt_count: i64,
    pub correct_count: i64,
    pub average_response_time_ms: Option<i64>,
    pub is_active: bool,
    pub updated_at: String,
}

#[derive(Clone, Debug)]
pub struct AdminQuestionCountDto {
    pub label: String,
    pub count: i64,
}

#[derive(Clone, Debug)]
pub struct AdminQuestionBankStatsDto {
    pub total_questions: i64,
    pub active_questions: i64,
    pub total_options: i64,
    pub total_attempts: i64,
    pub family_count: i64,
    pub installed_pack_count: i64,
    pub source_upload_count: i64,
    pub pending_review_count: i64,
    pub approved_review_count: i64,
    pub by_format: Vec<AdminQuestionCountDto>,
    pub by_source_type: Vec<AdminQuestionCountDto>,
    pub by_review_status: Vec<AdminQuestionCountDto>,
}

impl AdminQuestionUpsertInput {
    /// An input that edits an existing question, with the authoring defaults:
    /// an empty multiple-choice stem of medium difficulty worth one mark.
    pub fn existing(question_id: i64, subject_id: i64, topic_id: i64) -> (r: Self)
        ensures
            r.question_id == Some(question_id),
            r.subject_id == subject_id,
            r.topic_id == topic_id,
            r.subtopic_id is None,
            r.family_id is None,
            r.stem@ == Seq::<char>::empty(),
            r.question_format@ == "mcq"@,
            r.explanation_text is None,
            r.difficulty_level == 5000,
            r.estimated_time_seconds == 30,
            r.marks == 1,
            r.source_type@ == "authored"@,
            r.source_ref is None,
            r.exam_year is None,
            r.primary_knowledge_role is None,
            r.primary_cognitive_demand is None,
            r.primary_solve_pattern is None,
            r.primary_pedagogic_function is None,
            r.primary_content_grain is None,
            r.cognitive_level is None,
            r.options@.len() == 0,
    {
        AdminQuestionUpsertInput {
            question_id: Some(question_id),
            subject_id,
            topic_id,
            subtopic_id: None,
            family_id: None,
            stem: String::new(),
            question_format: lit("mcq"),
            explanation_text: None,
            difficulty_level: 5000,
            estimated_time_seconds: 30,
            marks: 1,
            source_type: lit("authored"),
            source_ref: None,
            exam_year: None,
            primary_knowledge_role: None,
            primary_cognitive_demand: None,
            primary_solve_pattern: None,
            primary_pedagogic_function: None,
            primary_content_grain: None,
            cognitive_level: None,
            options: Vec::new(),
        }
    }
}

/// The question formats the bank stores.
pub open spec fn supported_question_format(f: Seq<char>) -> bool {
    ||| f == "mcq"@
    ||| f == "short_answer"@
    ||| f == "numeric"@
    ||| f == "true_false"@
    ||| f == "matching"@
    ||| f == "ordering"@
}

/// Where a question can come from.
pub open spec fn supported_source_type(s: Seq<char>) -> bool {
    ||| s == "past_question"@
    ||| s == "authored"@
    ||| s == "generated"@
    ||| s == "teacher_upload"@
}

/// How many of the options are marked correct.
pub open spec fn correct_option_count(options: Seq<AdminQuestionOptionInput>) -> nat
    decreases options.len(),
{
    if options.len() == 0 {
        0
    } else {
        correct_option_count(options.drop_last()) + if options.last().is_correct { 1nat } else { 0nat }
    }
}

/// An option lacks a label or a text once surrounding white space is ignored.
pub open spec fn option_incomplete(o: AdminQuestionOptionInput) -> bool {
    blank(o.option_label@) || blank(o.option_text@)
}

/// The first rule an authored question breaks, as the message reported for it.
pub open spec fn admin_question_problem(input: AdminQuestionUpsertInput) -> Option<Seq<char>> {
    if blank(input.stem@) {
        Some("question stem is required"@)
    } else if !supported_question_format(input.question_format@) {
        Some("unsupported question format: "@ + input.question_format@)
    } else if !supported_source_type(input.source_type@) {
        Some("unsupported source type: "@ + input.source_type@)
    } else if input.question_format@ == "mcq"@ && input.options@.len() < 2 {
        Some("mcq questions need at least two options"@)
    } else if input.question_format@ == "mcq"@ && correct_option_count(input.options@) != 1 {
        Some("mcq questions need exactly one correct option"@)
    } else if exists|i: int| 0 <= i < input.options@.len() && option_incomplete(#[trigger] input.options@[i]) {
        Some("answer options need labels and text"@)
    } else {
        None
    }
}

fn validation(message: String) -> (r: CommandError)
    ensures
        r.code@ == "validation_error"@,
        r.message@ == message@,
{
    CommandError::new("validation_error", message)
}

fn count_correct_options(options: &Vec<AdminQuestionOptionInput>) -> (n: usize)
    ensures
        n == correct_option_count(options@),
{
    let mut n: usize = 0;
    let mut i: usize = 0;
    while i < options.len()
        invariant
            i <= options.len(),
            n == correct_option_count(options@.take(i as int)),
            n <= i,
        decreases options.len() - i,
    {
        assert(options@.take(i + 1).drop_last() =~= options@.take(i as int));
        if options[i].is_correct {
            n = n + 1;
        }
        i = i + 1;
    }
    assert(options@.take(options.len() as int) =~= options@);
    n
}

/// Checks an authored question before anything is written.
pub fn validate_admin_question_input(input: &AdminQuestionUpsertInput) -> (r: Result<(), CommandError>)
    ensures
        r is Ok <==> admin_question_problem(*input) is None,
        r matches Err(e) ==> e.code@ == "validation_error"@ && Some(e.message@) == admin_question_problem(*input),
{
    if is_blank(input.stem.as_str()) {
        return Err(validation(lit("question stem is required")));
    }
    let f = input.question_format.as_str();
    if !(text_eq(f, "mcq") || text_eq(f, "short_answer") || text_eq(f, "numeric") || text_eq(f, "true_false")
        || text_eq(f, "matching") || text_eq(f, "ordering")) {
        return Err(validation(cat(lit("unsupported question format: "), f)));
    }
    let s = input.source_type.as_str();
    if !(text_eq(s, "past_question") || text_eq(s, "authored") || text_eq(s, "generated") || text_eq(s, "teacher_upload")) {
        return Err(validation(cat(lit("unsupported source type: "), s)));
    }
    if text_eq(f, "mcq") {
        if input.options.len() < 2 {
            return Err(validation(lit("mcq questions need at least two options")));
        }
        if count_correct_options(&input.options) != 1 {
            return Err(validation(lit("mcq questions need exactly one correct option")));
        }
    }
    let mut i: usize = 0;
    while i < input.options.len()
        invariant
            i <= input.options.len(),
            !blank(input.stem@),
            supported_question_format(input.question_format@),
            supported_source_type(input.source_type@),
            input.question_format@ == "mcq"@ ==> input.options@.len() >= 2 && correct_option_count(input.options@) == 1,
            forall|k: int| 0 <= k < i ==> !option_incomplete(#[trigger] input.options@[k]),
        decreases input.options.len() - i,
    {
        let o = &input.options[i];
        if is_blank(o.option_label.as_str()) || is_blank(o.option_text.as_str()) {
            assert(option_incomplete(input.options@[i as int]));
            return Err(validation(lit("answer options need labels and text")));
        }
        i = i + 1;
    }
    Ok(())
}

/// One `question_options` row as an upsert writes it.
#[derive(Clone, Debug)]
pub struct AdminOptionRow {
    pub option_label: String,
    pub option_text: String,
    pub is_correct: i64,
    pub misconception_id: Option<i64>,
    pub distractor_intent: Option<String>,
    pub position: i64,
}

/// The row written for the option at `index`: label and text trimmed, the flag as
/// 1 or 0, and the position given or else the option's place counted from one.
pub open spec fn option_row_of(o: AdminQuestionOptionInput, index: int, row: AdminOptionRow) -> bool {
    &&& row.option_label@ == trimmed(o.option_label@)
    &&& row.option_text@ == trimmed(o.option_text@)
    &&& row.is_correct == (if o.is_correct { 1int } else { 0int })
    &&& row.misconception_id == o.misconception_id
    &&& opt_view(row.distractor_intent) == opt_view(o.distractor_intent)
    &&& row.position == (match o.position {
        Some(p) => p as int,
        None => index + 1,
    })
}

/// What an upsert writes once the input has been accepted.
#[derive(Clone, Debug)]
pub struct AdminQuestionWritePlan {
    pub stem: String,
    pub options: Vec<AdminOptionRow>,
}

/// Validates an authored question and lays out what the upsert stores: the trimmed
/// stem and one option row per input option, in order.
pub fn plan_admin_question_upsert(input: &AdminQuestionUpsertInput) -> (r: Result<AdminQuestionWritePlan, CommandError>)
    requires
        input.options@.len() < i64::MAX,
    ensures
        r is Ok <==> admin_question_problem(*input) is None,
        r matches Err(e) ==> e.code@ == "validation_error"@ && Some(e.message@) == admin_question_problem(*input),
        r matches Ok(p) ==> {
            &&& p.stem@ == trimmed(input.stem@)
            &&& p.options@.len() == input.options@.len()
            &&& forall|i: int| 0 <= i < p.options@.len() ==> option_row_of(input.options@[i], i, #[trigger] p.options@[i])
        },
{
    match validate_admin_question_input(input) {
        Err(e) => Err(e),
        Ok(()) => {
            let mut rows: Vec<AdminOptionRow> = Vec::new();
            let mut i: usize = 0;
            while i < input.options.len()
                invariant
                    i <= input.options.len(),
                    input.options@.len() < i64::MAX,
                    rows@.len() == i,
                    forall|k: int| 0 <= k < i ==> option_row_of(input.options@[k], k, #[trigger] rows@[k]),
                decreases input.options.len() - i,
            {
                let o = &input.options[i];
                let position: i64 = match o.position {
                    Some(p) => p,
                    None => (i + 1) as i64,
                };
                let row = AdminOptionRow {
                    option_label: trim(o.option_label.as_str()),
                    option_text: trim(o.option_text.as_str()),
                    is_correct: if o.is_correct { 1 } else { 0 },
                    misconception_id: o.misconception_id,
                    distractor_intent: copy_opt(&o.distractor_intent),
                    position,
                };
                rows.push(row);
                i = i + 1;
            }
            Ok(AdminQuestionWritePlan { stem: trim(input.stem.as_str()), options: rows })
        },
    }
}

/// The message for a question id that matched no row.
pub open spec fn question_not_found_message(question_id: i64) -> Seq<char> {
    "question "@ + decimal_text(question_id as int) + " was not found"@
}

fn question_not_found(question_id: i64) -> (r: CommandError)
    ensures
        r.code@ == "not_found"@,
        r.message@ == question_not_found_message(question_id),
{
    CommandError::new("not_found", cat(cat(lit("question "), i64_text(question_id).as_str()), " was not found"))
}

/// A question looked up for its options must exist and be active.
pub fn require_active_question(question_id: i64, found: bool) -> (r: Result<(), CommandError>)
    ensures
        r is Ok <==> found,
        r matches Err(e) ==> e.code@ == "not_found"@ && e.message@ == question_not_found_message(question_id),
{
    if found {
        Ok(())
    } else {
        Err(question_not_found(question_id))
    }
}

/// An update that changed no row means the question does not exist (or, for an
/// edit, is archived).
pub fn require_question_changed(question_id: i64, changed: usize) -> (r: Result<(), CommandError>)
    ensures
        r is Ok <==> changed > 0,
        r matches Err(e) ==> e.code@ == "not_found"@ && e.message@ == question_not_found_message(question_id),
{
    if changed == 0 {
        Err(question_not_found(question_id))
    } else {
        Ok(())
    }
}

/// The stored flag for an active or archived question.
pub fn active_flag(is_active: bool) -> (r: i64)
    ensures
        r == (if is_active { 1int } else { 0int }),
{
    if is_active { 1 } else { 0 }
}

/// Classifier confidence in basis points, held to 0..=10000.
pub fn confidence_score(raw: i64) -> (r: i64)
    ensures
        r == (if raw < 0 { 0 } else if raw > 10000 { 10000 } else { raw as int }),
{
    if raw < 0 {
        0
    } else if raw > 10000 {
        10000
    } else {
        raw
    }
}

/// The stored row behind the question editor, before the read model applies its rules.
#[derive(Clone, Debug)]
pub struct AdminQuestionEditorRow {
    pub question_id: i64,
    pub subject_id: i64,
    pub topic_id: i64,
    pub subtopic_id: Option<i64>,
    pub family_id: Option<i64>,
    pub stem: String,
    pub question_format: String,
    pub explanation_text: Option<String>,
    pub difficulty_level: i64,
    pub estimated_time_seconds: i64,
    pub marks: i64,
    pub source_type: String,
    pub source_ref: Option<String>,
    pub exam_year: Option<i64>,
    pub primary_knowledge_role: Option<String>,
    pub primary_cognitive_demand: Option<String>,
    pub primary_solve_pattern: Option<String>,
    pub primary_pedagogic_function: Option<String>,
    pub primary_content_grain: Option<String>,
    pub cognitive_level: Option<String>,
    pub review_status: String,
    pub machine_confidence_raw: i64,
    pub is_active_flag: i64,
}

/// The editor model carries the row's fields, the confidence clamped, the activity
/// flag as a boolean, and the options it was given.
pub open spec fn editor_matches(row: AdminQuestionEditorRow, options: Seq<AdminQuestionOptionDto>, e: AdminQuestionEditorDto) -> bool {
    &&& e.question_id == row.question_id
    &&& e.subject_id == row.subject_id
    &&& e.topic_id == row.topic_id
    &&& e.subtopic_id == row.subtopic_id
    &&& e.family_id == row.family_id
    &&& e.stem@ == row.stem@
    &&& e.question_format@ == row.question_format@
    &&& opt_view(e.explanation_text) == opt_view(row.explanation_text)
    &&& e.difficulty_level == row.difficulty_level
    &&& e.estimated_time_seconds == row.estimated_time_seconds
    &&& e.marks == row.marks
    &&& e.source_type@ == row.source_type@
    &&& opt_view(e.source_ref) == opt_view(row.source_ref)
    &&& e.exam_year == row.exam_year
    &&& opt_view(e.primary_knowledge_role) == opt_view(row.primary_knowledge_role)
    &&& opt_view(e.primary_cognitive_demand) == opt_view(row.primary_cognitive_demand)
    &&& opt_view(e.primary_solve_pattern) == opt_view(row.primary_solve_pattern)
    &&& opt_view(e.primary_pedagogic_function) == opt_view(row.primary_pedagogic_function)
    &&& opt_view(e.primary_content_grain) == opt_view(row.primary_content_grain)
    &&& opt_view(e.cognitive_level) == opt_view(row.cognitive_level)
    &&& e.review_status@ == row.review_status@
    &&& e.machine_confidence_score == (if row.machine_confidence_raw < 0 { 0 } else if row.machine_confidence_raw > 10000 { 10000 } else { row.machine_confidence_raw as int })
    &&& e.is_active == (row.is_active_flag == 1)
    &&& e.options@ == options
}

/// The editor read model for one question. Without `include_archived`, an archived
/// question reads as missing.
pub fn read_admin_question_editor(
    question_id: i64,
    include_archived: bool,
    row: Option<AdminQuestionEditorRow>,
    options: Vec<AdminQuestionOptionDto>,
) -> (r: Result<AdminQuestionEditorDto, CommandError>)
    ensures
        r is Ok <==> (row matches Some(w) && (include_archived || w.is_active_flag == 1)),
        r matches Err(e) ==> e.code@ == "not_found"@ && e.message@ == question_not_found_message(question_id),
        r matches Ok(e) ==> row matches Some(w) && editor_matches(w, options@, e),
{
    match row {
        None => Err(question_not_found(question_id)),
        Some(w) => {
            if !include_archived && w.is_active_flag != 1 {
                return Err(question_not_found(question_id));
            }
            Ok(AdminQuestionEditorDto {
                question_id: w.question_id,
                subject_id: w.subject_id,
                topic_id: w.topic_id,
                subtopic_id: w.subtopic_id,
                family_id: w.family_id,
                stem: w.stem,
                question_format: w.question_format,
                explanation_text: w.explanation_text,
                difficulty_level: w.difficulty_level,
                estimated_time_seconds: w.estimated_time_seconds,
                marks: w.marks,
                source_type: w.source_type,
                source_ref: w.source_ref,
                exam_year: w.exam_year,
                primary_knowledge_role: w.primary_knowledge_role,
                primary_cognitive_demand: w.primary_cognitive_demand,
                primary_solve_pattern: w.primary_solve_pattern,
                primary_pedagogic_function: w.primary_pedagogic_function,
                primary_content_grain: w.primary_content_grain,
                cognitive_level: w.cognitive_level,
                review_status: w.review_status,
                machine_confidence_score: confidence_score(w.machine_confidence_raw),
                is_active: w.is_active_flag == 1,
                options,
            })
        },
    }
}

/// The editor for an active question.
pub fn get_admin_question_editor(
    question_id: i64,
    row: Option<AdminQuestionEditorRow>,
    options: Vec<AdminQuestionOptionDto>,
) -> (r: Result<AdminQuestionEditorDto, CommandError>)
    ensures
        r is Ok <==> (row matches Some(w) && w.is_active_flag == 1),
        r matches Err(e) ==> e.code@ == "not_found"@ && e.message@ == question_not_found_message(question_id),
        r matches Ok(e) ==> row matches Some(w) && editor_matches(w, options@, e),
{
    read_admin_question_editor(question_id, false, row, options)
}

/// The editor for a question whether it is active or archived.
pub fn get_admin_question_editor_any(
    question_id: i64,
    row: Option<AdminQuestionEditorRow>,
    options: Vec<AdminQuestionOptionDto>,
) -> (r: Result<AdminQuestionEditorDto, CommandError>)
    ensures
        r is Ok <==> row is Some,
        r matches Err(e) ==> e.code@ == "not_found"@ && e.message@ == question_not_found_message(question_id),
        r matches Ok(e) ==> row matches Some(w) && editor_matches(w, options@, e),
{
    read_admin_question_editor(question_id, true, row, options)
}

/// The row read back after a question's activity flag was set.
#[derive(Clone, Debug)]
pub struct AdminQuestionActivityRow {
    pub question_id: i64,
    pub is_active_flag: i64,
    pub updated_at: String,
}

/// The outcome of setting a question's activity flag: the update's row count, then
/// the row read back, or the storage failure of that read.
pub fn set_admin_question_active(
    question_id: i64,
    changed: usize,
    read_back: Result<AdminQuestionActivityRow, String>,
) -> (r: Result<AdminQuestionArchiveResultDto, CommandError>)
    ensures
        changed == 0 ==> (r matches Err(e) && e.code@ == "not_found"@ && e.message@ == question_not_found_message(question_id)),
        changed > 0 ==> match read_back {
            Ok(w) => (r matches Ok(d) && d.question_id == w.question_id && d.is_active == (w.is_active_flag == 1)
                && d.updated_at@ == w.updated_at@),
            Err(m) => (r matches Err(e) && e.code@ == "storage_error"@ && e.message@ == m@),
        },
{
    if changed == 0 {
        return Err(question_not_found(question_id));
    }
    match read_back {
        Ok(w) => Ok(AdminQuestionArchiveResultDto {
            question_id: w.question_id,
            is_active: w.is_active_flag == 1,
            updated_at: w.updated_at,
        }),
        Err(m) => Err(crate::error::storage_error(m)),
    }
}

/// Archiving: see `set_admin_question_active`; the update wrote flag 0.
pub fn archive_admin_question(
    question_id: i64,
    changed: usize,
    read_back: Result<AdminQuestionActivityRow, String>,
) -> (r: Result<AdminQuestionArchiveResultDto, CommandError>)
    ensures
        changed == 0 ==> (r matches Err(e) && e.code@ == "not_found"@ && e.message@ == question_not_found_message(question_id)),
        changed > 0 ==> match read_back {
            Ok(w) => (r matches Ok(d) && d.question_id == w.question_id && d.is_active == (w.is_active_flag == 1)
                && d.updated_at@ == w.updated_at@),
            Err(m) => (r matches Err(e) && e.code@ == "storage_error"@ && e.message@ == m@),
        },
{
    set_admin_question_active(question_id, changed, read_back)
}

/// Restoring: see `set_admin_question_active`; the update wrote flag 1.
pub fn restore_admin_question(
    question_id: i64,
    changed: usize,
    read_back: Result<AdminQuestionActivityRow, String>,
) -> (r: Result<AdminQuestionArchiveResultDto, CommandError>)
    ensures
        changed == 0 ==> (r matches Err(e) && e.code@ == "not_found"@ && e.message@ == question_not_found_message(question_id)),
        changed > 0 ==> match read_back {
            Ok(w) => (r matches Ok(d) && d.question_id == w.question_id && d.is_active == (w.is_active_flag == 1)
                && d.updated_at@ == w.updated_at@),
            Err(m) => (r matches Err(e) && e.code@ == "storage_error"@ && e.message@ == m@),
        },
{
    set_admin_question_active(question_id, changed, read_back)
}

/// The headline counts of the question bank.
#[derive(Clone, Debug)]
pub struct AdminQuestionBankCounts {
    pub total_questions: i64,
    pub active_questions: i64,
    pub total_options: i64,
    pub total_attempts: i64,
    pub family_count: i64,
    pub installed_pack_count: i64,
    pub source_upload_count: i64,
    pub pending_review_count: i64,
    pub approved_review_count: i64,
}

/// The bank statistics: the counts and the three breakdowns of active questions, each
/// as it was grouped and ordered.
pub fn get_admin_question_bank_stats(
    counts: AdminQuestionBankCounts,
    by_format: Vec<AdminQuestionCountDto>,
    by_source_type: Vec<AdminQuestionCountDto>,
    by_review_status: Vec<AdminQuestionCountDto>,
) -> (r: AdminQuestionBankStatsDto)
    ensures
        r.total_questions == counts.total_questions,
        r.active_questions == counts.active_questions,
        r.total_options == counts.total_options,
        r.total_attempts == counts.total_attempts,
        r.family_count == counts.family_count,
        r.installed_pack_count == counts.installed_pack_count,
        r.source_upload_count == counts.source_upload_count,
        r.pending_review_count == counts.pending_review_count,
        r.approved_review_count == counts.approved_review_count,
        r.by_format@ == by_format@,
        r.by_source_type@ == by_source_type@,
        r.by_review_status@ == by_review_status@,
{
    AdminQuestionBankStatsDto {
        total_questions: counts.total_questions,
        active_questions: counts.active_questions,
        total_options: counts.total_options,
        total_attempts: counts.total_attempts,
        family_count: counts.family_count,
        installed_pack_count: counts.installed_pack_count,
        source_upload_count: counts.source_upload_count,
        pending_review_count: counts.pending_review_count,
        approved_review_count: counts.approved_review_count,
        by_format,
        by_source_type,
        by_review_status,
    }
}

/// The query parameters a question list filter turns into.
#[derive(Clone, Debug)]
pub struct AdminQuestionListQuery {
    pub search_pattern: Option<String>,
    pub active_status: String,
    pub limit: i64,
}

/// The active-status filter: "archived" or "all" as given, anything else "active".
pub open spec fn list_active_status(s: Option<String>) -> Seq<char> {
    match s {
        Some(v) => if v@ == "archived"@ {
            "archived"@
        } else if v@ == "all"@ {
            "all"@
        } else {
            "active"@
        },
        None => "active"@,
    }
}

/// Turns a list filter into query parameters: a search text, trimmed, becomes a
/// `LIKE` pattern unless it is blank; the limit is at least one.
pub fn admin_question_list_query(filter: &AdminQuestionListFilter) -> (r: AdminQuestionListQuery)
    requires
        filter.limit <= i64::MAX,
    ensures
        opt_view(r.search_pattern) == (match filter.search {
            Some(s) => if blank(s@) { None } else { Some("%"@ + trimmed(s@) + "%"@) },
            None => None,
        }),
        r.active_status@ == list_active_status(filter.active_status),
        r.limit == (if filter.limit < 1 { 1 } else { filter.limit as int }),
{
    let search_pattern = match &filter.search {
        Some(s) => {
            if is_blank(s.as_str()) {
                None
            } else {
                let t = trim(s.as_str());
                Some(cat(cat(lit("%"), t.as_str()), "%"))
            }
        },
        None => None,
    };
    let active_status = match &filter.active_status {
        Some(v) => if text_eq(v.as_str(), "archived") {
            lit("archived")
        } else if text_eq(v.as_str(), "all") {
            lit("all")
        } else {
            lit("active")
        },
        None => lit("active"),
    };
    let limit: i64 = if filter.limit < 1 { 1 } else { filter.limit as i64 };
    AdminQuestionListQuery { search_pattern, active_status, limit }
}

/// The actions a bulk request can name.
#[derive(Clone, Copy, Debug, PartialEq, Eq, Structural)]
pub enum AdminBulkAction {
    Archive,
    Restore,
    Move,
}

/// The action a request names, read without surrounding white space and without
/// regard to ASCII case.
pub open spec fn bulk_action_of(s: Seq<char>) -> Option<AdminBulkAction> {
    let k = lower_of(trimmed(s));
    if k == "archive"@ {
        Some(AdminBulkAction::Archive)
    } else if k == "restore"@ {
        Some(AdminBulkAction::Restore)
    } else if k == "move"@ {
        Some(AdminBulkAction::Move)
    } else {
        None
    }
}

pub open spec fn ids_strictly_increasing(s: Seq<i64>) -> bool {
    forall|i: int, j: int| 0 <= i < j < s.len() ==> #[trigger] s[i] < #[trigger] s[j]
}

/// A bulk request once accepted: the action, and the positive question ids it names,
/// each once, in increasing order.
#[derive(Clone, Debug)]
pub struct AdminBulkPlan {
    pub action: AdminBulkAction,
    pub question_ids: Vec<i64>,
    pub subject_id: Option<i64>,
    pub topic_id: Option<i64>,
}

/// Why a bulk request is refused before anything is touched.
pub open spec fn bulk_request_problem(input: AdminQuestionBulkActionInput) -> Option<Seq<char>> {
    if bulk_action_of(input.action@) is None {
        Some("unsupported bulk question action: "@ + input.action@)
    } else if !(exists|i: int| 0 <= i < input.question_ids@.len() && #[trigger] input.question_ids@[i] > 0) {
        Some("at least one question is required"@)
    } else if bulk_action_of(input.action@) == Some(AdminBulkAction::Move) && input.topic_id is None {
        Some("topic_id is required for bulk move"@)
    } else {
        None
    }
}

/// Adds an id to a strictly increasing list unless it is already there.
fn insert_id_sorted(v: &mut Vec<i64>, x: i64)
    requires
        ids_strictly_increasing(old(v)@),
    ensures
        ids_strictly_increasing(final(v)@),
        forall|y: i64| #[trigger] final(v)@.contains(y) <==> (old(v)@.contains(y) || y == x),
{
    let ghost s0 = v@;
    let mut k: usize = 0;
    while k < v.len() && v[k] < x
        invariant
            k <= v.len(),
            v@ == s0,
            forall|j: int| 0 <= j < k ==> #[trigger] s0[j] < x,
        decreases v.len() - k,
    {
        k = k + 1;
    }
    if k < v.len() && v[k] == x {
        assert(s0[k as int] == x);
        return;
    }
    v.insert(k, x);
    let ghost s1 = v@;
    assert(s1 =~= s0.take(k as int).push(x) + s0.skip(k as int));
    assert forall|i: int, j: int| 0 <= i < j < s1.len() implies #[trigger] s1[i] < #[trigger] s1[j] by {
        if j < k {
            assert(s1[i] == s0[i] && s1[j] == s0[j]);
        } else if j == k {
            assert(s1[i] == s0[i]);
        } else if i == k {
            assert(s1[j] == s0[j - 1]);
            assert(s0[k as int] >= x);
            if j - 1 > k {
                assert(s0[k as int] < s0[j - 1]);
            }
        } else if i < k {
            assert(s1[i] == s0[i] && s1[j] == s0[j - 1]);
        } else {
            assert(s1[i] == s0[i - 1] && s1[j] == s0[j - 1]);
        }
    }
    assert forall|y: i64| #[trigger] s1.contains(y) <==> (s0.contains(y) || y == x) by {
        if s1.contains(y) {
            let j = choose|j: int| 0 <= j < s1.len() && s1[j] == y;
            if j < k {
                assert(s0[j] == y);
            } else if j > k {
                assert(s0[j - 1] == y);
            }
        }
        if s0.contains(y) {
            let j = choose|j: int| 0 <= j < s0.len() && s0[j] == y;
            if j < k {
                assert(s1[j] == y);
            } else {
                assert(s1[j + 1] == y);
            }
        }
        if y == x {
            assert(s1[k as int] == y);
        }
    }
}

/// Checks a bulk request and settles what it applies to. `Ok` exactly when no
/// problem is found; the ids kept are the positive ones, sorted, without repeats.
pub fn plan_bulk_question_action(input: &AdminQuestionBulkActionInput) -> (r: Result<AdminBulkPlan, CommandError>)
    ensures
        r is Ok <==> bulk_request_problem(*input) is None,
        r matches Err(e) ==> e.code@ == "validation_error"@ && Some(e.message@) == bulk_request_problem(*input),
        r matches Ok(p) ==> {
            &&& Some(p.action) == bulk_action_of(input.action@)
            &&& ids_strictly_increasing(p.question_ids@)
            &&& forall|x: i64| #[trigger] p.question_ids@.contains(x) <==> (input.question_ids@.contains(x) && x > 0)
            &&& p.subject_id == input.subject_id
            &&& p.topic_id == input.topic_id
        },
{
    let key = to_lower_ascii(trim(input.action.as_str()).as_str());
    let action = if text_eq(key.as_str(), "archive") {
        AdminBulkAction::Archive
    } else if text_eq(key.as_str(), "restore") {
        AdminBulkAction::Restore
    } else if text_eq(key.as_str(), "move") {
        AdminBulkAction::Move
    } else {
        return Err(validation(cat(lit("unsupported bulk question action: "), input.action.as_str())));
    };
    let mut ids: Vec<i64> = Vec::new();
    let mut i: usize = 0;
    while i < input.question_ids.len()
        invariant
            i <= input.question_ids.len(),
            ids_strictly_increasing(ids@),
            forall|x: i64| #[trigger] ids@.contains(x) <==> (input.question_ids@.take(i as int).contains(x) && x > 0),
        decreases input.question_ids.len() - i,
    {
        let x = input.question_ids[i];
        let ghost before = input.question_ids@.take(i as int);
        let ghost after = input.question_ids@.take(i + 1);
        assert(after =~= before.push(x));
        if x > 0 {
            insert_id_sorted(&mut ids, x);
        }
        assert forall|y: i64| #[trigger] ids@.contains(y) <==> (after.contains(y) && y > 0) by {
            if after.contains(y) {
                let j = choose|j: int| 0 <= j < after.len() && after[j] == y;
                if j < before.len() {
                    assert(before[j] == y);
                }
            }
            if before.contains(y) {
                let j = choose|j: int| 0 <= j < before.len() && before[j] == y;
                assert(after[j] == y);
            }
            if y == x {
                assert(after[i as int] == y);
            }
        }
        i = i + 1;
    }
    assert(input.question_ids@.take(input.question_ids.len() as int) =~= input.question_ids@);
    if ids.len() == 0 {
        proof {
            if exists|i: int| 0 <= i < input.question_ids@.len() && #[trigger] input.question_ids@[i] > 0 {
                let j = choose|j: int| 0 <= j < input.question_ids@.len() && #[trigger] input.question_ids@[j] > 0;
                assert(input.question_ids@.contains(input.question_ids@[j]));
                assert(ids@.contains(input.question_ids@[j]));
            }
        }
        return Err(validation(lit("at least one question is required")));
    }
    proof {
        let y = ids@[0];
        assert(ids@.contains(y));
        let j = choose|j: int| 0 <= j < input.question_ids@.len() && input.question_ids@[j] == y;
        assert(input.question_ids@[j] > 0);
    }
    if action == AdminBulkAction::Move && input.topic_id.is_none() {
        return Err(validation(lit("topic_id is required for bulk move")));
    }
    Ok(AdminBulkPlan { action, question_ids: ids, subject_id: input.subject_id, topic_id: input.topic_id })
}

/// Where a bulk move sends questions: the topic's own subject and the topic. The
/// topic must exist and, where a subject was named, belong to it.
pub fn bulk_move_target(topic_id: i64, subject_id: Option<i64>, topic_subject_id: Option<i64>) -> (r: Result<(i64, i64), CommandError>)
    ensures
        match topic_subject_id {
            None => (r matches Err(e) && e.code@ == "not_found"@
                && e.message@ == "topic "@ + decimal_text(topic_id as int) + " was not found"@),
            Some(ts) => match subject_id {
                Some(s) if s != ts => (r matches Err(e) && e.code@ == "validation_error"@
                    && e.message@ == "topic "@ + decimal_text(topic_id as int) + " does not belong to subject "@
                        + decimal_text(s as int)),
                _ => r == Ok::<(i64, i64), CommandError>((ts, topic_id)),
            },
        },
{
    match topic_subject_id {
        None => Err(CommandError::new(
            "not_found",
            cat(cat(lit("topic "), i64_text(topic_id).as_str()), " was not found"),
        )),
        Some(ts) => {
            match subject_id {
                Some(s) => {
                    if s != ts {
                        let m = cat(cat(cat(lit("topic "), i64_text(topic_id).as_str()), " does not belong to subject "), i64_text(s).as_str());
                        return Err(validation(m));
                    }
                },
                None => {},
            }
            Ok((ts, topic_id))
        },
    }
}

/// The total of the row counts.
pub open spec fn changed_total(changed: Seq<usize>) -> nat
    decreases changed.len(),
{
    if changed.len() == 0 {
        0
    } else {
        changed_total(changed.drop_last()) + (changed.last() as nat)
    }
}

/// How many read-back flags say active (`Some(1)`) or archived (another `Some`).
pub open spec fn activity_count(flags: Seq<Option<i64>>, active: bool) -> nat
    decreases flags.len(),
{
    if flags.len() == 0 {
        0
    } else {
        activity_count(flags.drop_last(), active) + match flags.last() {
            Some(f) => if (f == 1) == active { 1nat } else { 0nat },
            None => 0nat,
        }
    }
}

/// The first index at which an update changed nothing, if any.
pub open spec fn first_unchanged(changed: Seq<usize>, i: int) -> bool {
    0 <= i < changed.len() && changed[i] == 0 && forall|k: int| 0 <= k < i ==> #[trigger] changed[k] != 0
}

/// The first index whose flag could not be read back, if any.
pub open spec fn first_unread(flags: Seq<Option<i64>>, i: int) -> bool {
    0 <= i < flags.len() && flags[i] is None && forall|k: int| 0 <= k < i ==> #[trigger] flags[k] is Some
}

/// Tallies a bulk action from what the store reported: for each question in the plan,
/// the rows its update changed, then its activity flag read back. The first question
/// whose update changed nothing, or else whose flag is missing, is reported as not found.
pub fn bulk_update_admin_questions(
    plan: &AdminBulkPlan,
    changed: &Vec<usize>,
    flags: &Vec<Option<i64>>,
) -> (r: Result<AdminQuestionBulkActionResultDto, CommandError>)
    requires
        changed@.len() == plan.question_ids@.len(),
        flags@.len() == plan.question_ids@.len(),
        plan.question_ids@.len() <= i64::MAX,
        changed_total(changed@) <= i64::MAX,
    ensures
        (exists|i: int| first_unchanged(changed@, i)) ==> forall|i: int| first_unchanged(changed@, i)
            ==> (r matches Err(e) && e.code@ == "not_found"@ && e.message@ == question_not_found_message(plan.question_ids@[i])),
        (forall|i: int| 0 <= i < changed@.len() ==> #[trigger] changed@[i] != 0) && (exists|i: int| first_unread(flags@, i))
            ==> forall|i: int| first_unread(flags@, i)
            ==> (r matches Err(e) && e.code@ == "not_found"@ && e.message@ == question_not_found_message(plan.question_ids@[i])),
        r is Ok <==> (forall|i: int| 0 <= i < changed@.len() ==> #[trigger] changed@[i] != 0)
            && (forall|i: int| 0 <= i < flags@.len() ==> #[trigger] flags@[i] is Some),
        r matches Ok(d) ==> {
            &&& d.requested_count == plan.question_ids@.len()
            &&& d.updated_count == changed_total(changed@)
            &&& d.active_count == activity_count(flags@, true)
            &&& d.archived_count == activity_count(flags@, false)
        },
{
    let n = plan.question_ids.len();
    let mut updated: i64 = 0;
    let mut i: usize = 0;
    while i < n
        invariant
            i <= n,
            n == changed@.len(),
            n == plan.question_ids@.len(),
            changed_total(changed@) <= i64::MAX,
            updated == changed_total(changed@.take(i as int)),
            forall|k: int| 0 <= k < i ==> #[trigger] changed@[k] != 0,
        decreases n - i,
    {
        assert(changed@.take(i + 1).drop_last() =~= changed@.take(i as int));
        proof {
            lemma_changed_total_prefix(changed@, i + 1);
        }
        if changed[i] == 0 {
            assert(first_unchanged(changed@, i as int));
            return Err(question_not_found(plan.question_ids[i]));
        }
        updated = updated + changed[i] as i64;
        i = i + 1;
    }
    assert(changed@.take(n as int) =~= changed@);
    let mut active: i64 = 0;
    let mut archived: i64 = 0;
    let mut j: usize = 0;
    while j < n
        invariant
            j <= n,
            n == flags@.len(),
            n == changed@.len(),
            n == plan.question_ids@.len(),
            n <= i64::MAX,
            updated == changed_total(changed@),
            forall|k: int| 0 <= k < n ==> #[trigger] changed@[k] != 0,
            active == activity_count(flags@.take(j as int), true),
            archived == activity_count(flags@.take(j as int), false),
            active + archived == j,
            forall|k: int| 0 <= k < j ==> #[trigger] flags@[k] is Some,
        decreases n - j,
    {
        assert(flags@.take(j + 1).drop_last() =~= flags@.take(j as int));
        match flags[j] {
            None => {
                assert(first_unread(flags@, j as int));
                return Err(question_not_found(plan.question_ids[j]));
            },
            Some(f) => {
                if f == 1 {
                    active = active + 1;
                } else {
                    archived = archived + 1;
                }
            },
        }
        j = j + 1;
    }
    assert(flags@.take(n as int) =~= flags@);
    Ok(AdminQuestionBulkActionResultDto {
        requested_count: n as i64,
        updated_count: updated,
        active_count: active,
        archived_count: archived,
    })
}

/// The totals of prefixes grow with the prefix.
pub proof fn lemma_changed_total_prefix(changed: Seq<usize>, i: int)
    requires
        0 <= i <= changed.len(),
    ensures
        changed_total(changed.take(i)) <= changed_total(changed),
    decreases changed.len() - i,
{
    if i < changed.len() {
        lemma_changed_total_prefix(changed, i + 1);
        assert(changed.take(i + 1).drop_last() =~= changed.take(i));
    } else {
        assert(changed.take(i) =~= changed);
    }
}

/// Once every flag was read back, each requested question counts as either active or
/// archived, never both and never neither.
pub proof fn bulk_tally_splits_every_question(flags: Seq<Option<i64>>)
    requires
        forall|i: int| 0 <= i < flags.len() ==> #[trigger] flags[i] is Some,
    ensures
        activity_count(flags, true) + activity_count(flags, false) == flags.len(),
    decreases flags.len(),
{
    if flags.len() > 0 {
        let rest = flags.drop_last();
        assert forall|i: int| 0 <= i < rest.len() implies #[trigger] rest[i] is Some by {
            assert(rest[i] == flags[i]);
        }
        bulk_tally_splits_every_question(rest);
        assert(flags.last() == flags[flags.len() - 1]);
    }
}

} // verus!
