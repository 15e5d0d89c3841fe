//! Past-paper authoring and practice: the checks on a paper before it is saved, the
//! fields a stored question takes, how edited options are matched to stored ones, and
//! the messages and session focus strings the past-paper commands produce.

use vstd::prelude::*;
use crate::error::CommandError;
use crate::product_vault::{opt_view, copy_opt};
use crate::text::{blank, trimmed, decimal_text, is_blank, trim, text_eq, i64_text, lit, cat};

verus! {

#[derive(Clone, Debug)]
pub struct AdminPastPaperOptionInput {
    /// Existing option's DB id when the admin is editing in place.
    /// When None, the option is new and gets a fresh row.
    pub option_id: Option<i64>,
    pub option_label: String,
    pub option_text: String,
    pub is_correct: bool,
}

#[derive(Clone, Debug)]
pub struct AdminPastPaperQuestionInput {
    pub question_id: Option<i64>,
    pub section_label: String,
    pub question_number: Option<String>,
    pub topic_id: i64,
    pub subtopic_id: Option<i64>,
    pub stem: String,
    /// DB-persisted format. Essay + fill-in-the-blank both land here as
    /// `short_answer` — the UI distinction travels in `primary_pedagogic_function`
    /// because the `question_format` CHECK constraint (migration 003) does not
    /// allow new values without a table rebuild.
    pub question_format: String,
    pub primary_pedagogic_function: Option<String>,
    pub explanation_text: Option<String>,
    pub difficulty_level: Option<i64>,
    pub marks: Option<i64>,
    pub options: Vec<AdminPastPaperOptionInput>,
}

#[derive(Clone, Debug)]
pub struct AdminPastPaperSaveInput {
    pub paper_id: Option<i64>,
    pub subject_id: i64,
    pub exam_year: i64,
    pub paper_code: Option<String>,
    pub title: String,
    pub questions: Vec<AdminPastPaperQuestionInput>,
}

#[derive(Clone, Debug)]
pub struct AdminPastPaperSaveResult {
    pub paper_id: i64,
    pub question_count: i64,
    pub question_ids: Vec<i64>,
}

#[derive(Clone, Debug)]
pub struct AdminPastPaperListItem {
    pub paper_id: i64,
    pub subject_id: i64,
    pub subject_name: String,
    pub exam_year: i64,
    pub paper_code: Option<String>,
    pub title: String,
    pub question_count: i64,
    pub created_at: String,
}

#[derive(Clone, Debug)]
pub struct QuestionAssetBytesDto {
    pub mime_type: String,
    pub bytes: Vec<u8>,
}

#[derive(Clone, Debug)]
pub struct AdminPastPaperOptionDto {
    pub option_id: i64,
    pub option_label: String,
    pub option_text: String,
    pub is_correct: bool,
    pub position: i64,
}

fn invalid(message: String) -> (r: CommandError)
    ensures
        r.code@ == "validation"@,
        r.message@ == message@,
{
    CommandError::new("validation", message)
}

fn not_found(message: String) -> (r: CommandError)
    ensures
        r.code@ == "not_found"@,
        r.message@ == message@,
{
    CommandError::new("not_found", message)
}

/// `"#n"` for the question at zero-based `idx`.
pub open spec fn ordinal(idx: int) -> Seq<char> {
    "#"@ + decimal_text(idx + 1)
}

/// An option is marked correct somewhere in the list.
pub open spec fn has_correct_option(options: Seq<AdminPastPaperOptionInput>) -> bool {
    exists|i: int| 0 <= i < options.len() && #[trigger] options[i].is_correct
}

/// What is wrong with the question at `idx`, if anything.
pub open spec fn past_paper_question_problem(q: AdminPastPaperQuestionInput, idx: int) -> Option<Seq<char>> {
    if blank(q.stem@) {
        Some("question "@ + ordinal(idx) + " has an empty stem"@)
    } else if q.question_format@ == "mcq"@ && q.options@.len() == 0 {
        Some("MCQ question "@ + ordinal(idx) + " needs at least one option"@)
    } else if q.question_format@ == "mcq"@ && !has_correct_option(q.options@) {
        Some("MCQ question "@ + ordinal(idx) + " needs a correct option"@)
    } else {
        None
    }
}

/// The problem of the first question that has one.
pub open spec fn past_paper_questions_problem(qs: Seq<AdminPastPaperQuestionInput>) -> Option<Seq<char>>
    decreases qs.len(),
{
    if qs.len() == 0 {
        None
    } else {
        match past_paper_questions_problem(qs.drop_last()) {
            Some(m) => Some(m),
            None => past_paper_question_problem(qs.last(), qs.len() - 1),
        }
    }
}

/// The first rule a past paper breaks, as the message reported for it.
pub open spec fn past_paper_problem(input: AdminPastPaperSaveInput) -> Option<Seq<char>> {
    if blank(input.title@) {
        Some("title is required"@)
    } else if input.exam_year < 1980 || input.exam_year > 2100 {
        Some("exam_year "@ + decimal_text(input.exam_year as int) + " is outside the allowed range"@)
    } else if input.subject_id <= 0 {
        Some("subject_id is required"@)
    } else {
        past_paper_questions_problem(input.questions@)
    }
}

fn question_ordinal(idx: usize) -> (r: String)
    requires
        idx < i64::MAX,
    ensures
        r@ == ordinal(idx as int),
{
    cat(lit("#"), i64_text((idx as i64) + 1).as_str())
}

/// Checks a past paper before it is saved.
pub fn validate_past_paper_input(input: &AdminPastPaperSaveInput) -> (r: Result<(), CommandError>)
    requires
        input.questions@.len() < i64::MAX,
    ensures
        r is Ok <==> past_paper_problem(*input) is None,
        r matches Err(e) ==> e.code@ == "validation"@ && Some(e.message@) == past_paper_problem(*input),
{
    if is_blank(input.title.as_str()) {
        return Err(invalid(lit("title is required")));
    }
    if input.exam_year < 1980 || input.exam_year > 2100 {
        return Err(invalid(cat(cat(lit("exam_year "), i64_text(input.exam_year).as_str()), " is outside the allowed range")));
    }
    if input.subject_id <= 0 {
        return Err(invalid(lit("subject_id is required")));
    }
    let mut idx: usize = 0;
    while idx < input.questions.len()
        invariant
            idx <= input.questions.len(),
            input.questions@.len() < i64::MAX,
            !blank(input.title@),
            1980 <= input.exam_year <= 2100,
            input.subject_id > 0,
            past_paper_questions_problem(input.questions@.take(idx as int)) is None,
        decreases input.questions.len() - idx,
    {
        let q = &input.questions[idx];
        assert(input.questions@.take(idx + 1).drop_last() =~= input.questions@.take(idx as int));
        if is_blank(q.stem.as_str()) {
            proof {
                lemma_questions_problem_prefix(input.questions@, idx as int + 1);
            }
            return Err(invalid(cat(cat(lit("question "), question_ordinal(idx).as_str()), " has an empty stem")));
        }
        if text_eq(q.question_format.as_str(), "mcq") {
            if q.options.len() == 0 {
                proof {
                    lemma_questions_problem_prefix(input.questions@, idx as int + 1);
                }
                return Err(invalid(cat(cat(lit("MCQ question "), question_ordinal(idx).as_str()), " needs at least one option")));
            }
            let mut any = false;
            let mut k: usize = 0;
            while k < q.options.len()
                invariant
                    k <= q.options.len(),
                    any <==> exists|j: int| 0 <= j < k && #[trigger] q.options@[j].is_correct,
                decreases q.options.len() - k,
            {
                if q.options[k].is_correct {
                    any = true;
                }
                k = k + 1;
            }
            if !any {
                proof {
                    lemma_questions_problem_prefix(input.questions@, idx as int + 1);
                }
                return Err(invalid(cat(cat(lit("MCQ question "), question_ordinal(idx).as_str()), " needs a correct option")));
            }
        }
        idx = idx + 1;
    }
    assert(input.questions@.take(input.questions.len() as int) =~= input.questions@);
    Ok(())
}

/// Once a prefix has a problem, every longer prefix reports that same problem.
pub proof fn lemma_questions_problem_prefix(qs: Seq<AdminPastPaperQuestionInput>, i: int)
    requires
        0 <= i <= qs.len(),
        past_paper_questions_problem(qs.take(i)) is Some,
    ensures
        past_paper_questions_problem(qs) == past_paper_questions_problem(qs.take(i)),
    decreases qs.len() - i,
{
    if i < qs.len() {
        assert(qs.take(i + 1).drop_last() =~= qs.take(i));
        lemma_questions_problem_prefix(qs, i + 1);
    } else {
        assert(qs.take(i) =~= qs);
    }
}

/// Multiple choice and true/false are answered in one step.
pub open spec fn objective_format(f: Seq<char>) -> bool {
    f == "mcq"@ || f == "true_false"@
}

/// The stored difficulty, marks and time allowance of a past-paper question.
#[derive(Clone, Copy, Debug)]
pub struct PastPaperQuestionProfile {
    pub difficulty_level: i64,
    pub marks: i64,
    pub estimated_time_seconds: i64,
}

/// Difficulty defaults to the middle of the scale; marks default to one for objective
/// questions and four otherwise; objective questions get 45 s, numeric and short
/// answers 90 s, anything else 180 s.
pub fn past_paper_question_profile(q: &AdminPastPaperQuestionInput) -> (r: PastPaperQuestionProfile)
    ensures
        r.difficulty_level == (match q.difficulty_level {
            Some(d) => d,
            None => 5000,
        }),
        r.marks == (match q.marks {
            Some(m) => m as int,
            None => if objective_format(q.question_format@) { 1int } else { 4int },
        }),
        r.estimated_time_seconds == (if objective_format(q.question_format@) {
            45int
        } else if q.question_format@ == "numeric"@ || q.question_format@ == "short_answer"@ {
            90int
        } else {
            180int
        }),
{
    let f = q.question_format.as_str();
    let objective = text_eq(f, "mcq") || text_eq(f, "true_false");
    let difficulty_level = match q.difficulty_level {
        Some(d) => d,
        None => 5000,
    };
    let marks = match q.marks {
        Some(m) => m,
        None => if objective { 1 } else { 4 },
    };
    let estimated_time_seconds = if objective {
        45
    } else if text_eq(f, "numeric") || text_eq(f, "short_answer") {
        90
    } else {
        180
    };
    PastPaperQuestionProfile { difficulty_level, marks, estimated_time_seconds }
}

/// An edit that matched no stored question.
pub fn require_past_paper_question_changed(question_id: i64, changed: usize) -> (r: Result<(), CommandError>)
    ensures
        r is Ok <==> changed > 0,
        r matches Err(e) ==> e.code@ == "not_found"@
            && e.message@ == "question "@ + decimal_text(question_id as int) + " not found"@,
{
    if changed == 0 {
        Err(not_found(cat(cat(lit("question "), i64_text(question_id).as_str()), " not found")))
    } else {
        Ok(())
    }
}

/// How one incoming option is stored: in place over the stored option it names, when
/// that option belongs to the question, else as a new row.
#[derive(Clone, Debug)]
pub struct PastPaperOptionWrite {
    pub existing_id: Option<i64>,
    pub option_label: String,
    pub option_text: String,
    pub is_correct: i64,
    pub position: i64,
}

/// The writes and deletions that bring a question's stored options in line with the
/// edited list.
#[derive(Clone, Debug)]
pub struct PastPaperOptionSync {
    pub writes: Vec<PastPaperOptionWrite>,
    pub removed_ids: Vec<i64>,
}

/// The write for the option at `idx`.
pub open spec fn option_write_of(o: AdminPastPaperOptionInput, idx: int, existing: Seq<i64>, w: PastPaperOptionWrite) -> bool {
    &&& w.existing_id == (match o.option_id {
        Some(id) => if existing.contains(id) { Some(id) } else { None },
        None => None,
    })
    &&& w.option_label@ == trimmed(o.option_label@)
    &&& w.option_text@ == trimmed(o.option_text@)
    &&& w.is_correct == (if o.is_correct { 1int } else { 0int })
    &&& w.position == idx + 1
}

/// Some incoming option names this stored id.
pub open spec fn option_claimed(options: Seq<AdminPastPaperOptionInput>, id: i64) -> bool {
    exists|i: int| 0 <= i < options.len() && #[trigger] options[i].option_id == Some(id)
}

/// The stored ids that no incoming option names, in stored order.
pub open spec fn unclaimed_ids(existing: Seq<i64>, options: Seq<AdminPastPaperOptionInput>) -> Seq<i64>
    decreases existing.len(),
{
    if existing.len() == 0 {
        Seq::empty()
    } else {
        let rest = unclaimed_ids(existing.drop_last(), options);
        if option_claimed(options, existing.last()) { rest } else { rest.push(existing.last()) }
    }
}

fn id_in(v: &Vec<i64>, x: i64) -> (r: bool)
    ensures
        r == v@.contains(x),
{
    let mut i: usize = 0;
    while i < v.len()
        invariant
            i <= v.len(),
            forall|k: int| 0 <= k < i ==> v@[k] != x,
        decreases v.len() - i,
    {
        if v[i] == x {
            assert(v@[i as int] == x);
            return true;
        }
        i = i + 1;
    }
    false
}

fn claimed(options: &Vec<AdminPastPaperOptionInput>, id: i64) -> (r: bool)
    ensures
        r == option_claimed(options@, id),
{
    let mut i: usize = 0;
    while i < options.len()
        invariant
            i <= options.len(),
            forall|k: int| 0 <= k < i ==> #[trigger] options@[k].option_id != Some(id),
        decreases options.len() - i,
    {
        if options[i].option_id == Some(id) {
            return true;
        }
        i = i + 1;
    }
    false
}

/// Matches an edited option list against the ids stored for the question, so that
/// options keep their ids (and what is attached to them) across edits. Positions
/// follow the edited order from one.
pub fn plan_past_paper_option_sync(existing_ids: &Vec<i64>, options: &Vec<AdminPastPaperOptionInput>) -> (r: PastPaperOptionSync)
    requires
        options@.len() < i64::MAX,
    ensures
        r.writes@.len() == options@.len(),
        forall|i: int| 0 <= i < options@.len() ==> option_write_of(options@[i], i, existing_ids@, #[trigger] r.writes@[i]),
        r.removed_ids@ == unclaimed_ids(existing_ids@, options@),
{
    let mut writes: Vec<PastPaperOptionWrite> = Vec::new();
    let mut i: usize = 0;
    while i < options.len()
        invariant
            i <= options.len(),
            options@.len() < i64::MAX,
            writes@.len() == i,
            forall|k: int| 0 <= k < i ==> option_write_of(options@[k], k, existing_ids@, #[trigger] writes@[k]),
        decreases options.len() - i,
    {
        let o = &options[i];
        let existing_id = match o.option_id {
            Some(id) => if id_in(existing_ids, id) { Some(id) } else { None },
            None => None,
        };
        writes.push(PastPaperOptionWrite {
            existing_id,
            option_label: trim(o.option_label.as_str()),
            option_text: trim(o.option_text.as_str()),
            is_correct: if o.is_correct { 1 } else { 0 },
            position: (i + 1) as i64,
        });
        i = i + 1;
    }
    let mut removed: Vec<i64> = Vec::new();
    let mut j: usize = 0;
    while j < existing_ids.len()
        invariant
            j <= existing_ids.len(),
            removed@ == unclaimed_ids(existing_ids@.take(j as int), options@),
        decreases existing_ids.len() - j,
    {
        assert(existing_ids@.take(j + 1).drop_last() =~= existing_ids@.take(j as int));
        let id = existing_ids[j];
        if !claimed(options, id) {
            removed.push(id);
        }
        j = j + 1;
    }
    assert(existing_ids@.take(existing_ids.len() as int) =~= existing_ids@);
    PastPaperOptionSync { writes, removed_ids: removed }
}

/// The result of saving a paper: its id and the ids of its questions in paper order.
pub fn past_paper_save_result(paper_id: i64, question_ids: Vec<i64>) -> (r: AdminPastPaperSaveResult)
    requires
        question_ids@.len() <= i64::MAX,
    ensures
        r.paper_id == paper_id,
        r.question_count == question_ids@.len(),
        r.question_ids@ == question_ids@,
{
    AdminPastPaperSaveResult { paper_id, question_count: question_ids.len() as i64, question_ids }
}

/// The question-format buckets a topic session can draw from.
pub open spec fn topic_format_ok(f: Seq<char>) -> bool {
    f == "objective"@ || f == "essay"@ || f == "all"@
}

/// Accepts the format filter of a topic session.
pub fn past_paper_topic_format(format: &str) -> (r: Result<String, CommandError>)
    ensures
        r is Ok <==> topic_format_ok(format@),
        r matches Ok(f) ==> f@ == format@,
        r matches Err(e) ==> e.code@ == "bad_request"@
            && e.message@ == "invalid format '"@ + format@ + "'; expected one of objective|essay|all"@,
{
    if text_eq(format, "objective") || text_eq(format, "essay") || text_eq(format, "all") {
        Ok(lit(format))
    } else {
        Err(CommandError::new("bad_request", cat(cat(lit("invalid format '"), format), "'; expected one of objective|essay|all")))
    }
}

/// A topic session needs at least one matching question.
pub fn require_topic_questions(question_count: usize, format: &str, subject_id: i64, topic_id: i64) -> (r: Result<(), CommandError>)
    ensures
        r is Ok <==> question_count > 0,
        r matches Err(e) ==> e.code@ == "not_found"@
            && e.message@ == "no "@ + format@ + " past-paper questions found for subject "@ + decimal_text(subject_id as int)
                + " / topic "@ + decimal_text(topic_id as int),
{
    if question_count == 0 {
        let m = cat(cat(cat(cat(cat(lit("no "), format), " past-paper questions found for subject "), i64_text(subject_id).as_str()), " / topic "), i64_text(topic_id).as_str());
        Err(not_found(m))
    } else {
        Ok(())
    }
}

/// The focus a topic session is tagged with.
pub fn past_paper_topic_focus(subject_id: i64, topic_id: i64, format: &str) -> (r: String)
    ensures
        r@ == "past_paper_topic:"@ + decimal_text(subject_id as int) + ":"@ + decimal_text(topic_id as int) + ":"@ + format@,
{
    cat(cat(cat(cat(cat(lit("past_paper_topic:"), i64_text(subject_id).as_str()), ":"), i64_text(topic_id).as_str()), ":"), format)
}

/// The focus a section session is tagged with.
pub fn past_paper_section_focus(paper_id: i64, section_label: &str) -> (r: String)
    ensures
        r@ == "past_paper_section:"@ + decimal_text(paper_id as int) + ":"@ + section_label@,
{
    cat(cat(cat(lit("past_paper_section:"), i64_text(paper_id).as_str()), ":"), section_label)
}

/// The snapshot of a session just started, which must exist.
pub fn require_session_snapshot<T>(session_id: i64, snapshot: Option<T>) -> (r: Result<T, CommandError>)
    ensures
        snapshot matches Some(s) ==> r == Ok::<T, CommandError>(s),
        snapshot is None ==> (r matches Err(e) && e.code@ == "not_found"@
            && e.message@ == "session "@ + decimal_text(session_id as int) + " snapshot was not created"@),
{
    match snapshot {
        Some(s) => Ok(s),
        None => Err(not_found(cat(cat(lit("session "), i64_text(session_id).as_str()), " snapshot was not created"))),
    }
}

/// A paper that must exist.
pub fn require_past_paper<T>(paper_id: i64, paper: Option<T>) -> (r: Result<T, CommandError>)
    ensures
        paper matches Some(p) ==> r == Ok::<T, CommandError>(p),
        paper is None ==> (r matches Err(e) && e.code@ == "not_found"@
            && e.message@ == "past paper "@ + decimal_text(paper_id as int) + " not found"@),
{
    match paper {
        Some(p) => Ok(p),
        None => Err(not_found(cat(cat(lit("past paper "), i64_text(paper_id).as_str()), " not found"))),
    }
}

/// The stored bytes of an asset, which must exist.
pub fn question_asset_bytes(asset_id: i64, stored: Option<(String, Vec<u8>)>) -> (r: Result<QuestionAssetBytesDto, CommandError>)
    ensures
        stored matches Some(s) ==> (r matches Ok(d) && d.mime_type@ == s.0@ && d.bytes@ == s.1@),
        stored is None ==> (r matches Err(e) && e.code@ == "not_found"@
            && e.message@ == "asset "@ + decimal_text(asset_id as int) + " not found"@),
{
    match stored {
        Some((mime_type, bytes)) => Ok(QuestionAssetBytesDto { mime_type, bytes }),
        None => Err(not_found(cat(cat(lit("asset "), i64_text(asset_id).as_str()), " not found"))),
    }
}

/// An upload to extract text from must hold at least one byte.
pub fn require_nonempty_upload(byte_count: usize) -> (r: Result<(), CommandError>)
    ensures
        r is Ok <==> byte_count > 0,
        r matches Err(e) ==> e.code@ == "validation"@ && e.message@ == "uploaded file is empty"@,
{
    if byte_count == 0 {
        Err(invalid(lit("uploaded file is empty")))
    } else {
        Ok(())
    }
}

/// A stored option as the paper editor shows it.
pub fn past_paper_option_dto(option_id: i64, option_label: String, option_text: String, is_correct_flag: i64, position: i64) -> (r: AdminPastPaperOptionDto)
    ensures
        r.option_id == option_id,
        r.option_label@ == option_label@,
        r.option_text@ == option_text@,
        r.is_correct == (is_correct_flag == 1),
        r.position == position,
{
    AdminPastPaperOptionDto { option_id, option_label, option_text, is_correct: is_correct_flag == 1, position }
}

/// A missing section label reads as empty.
pub fn section_label_or_empty(label: &Option<String>) -> (r: String)
    ensures
        r@ == (match *label {
            Some(s) => s@,
            None => Seq::<char>::empty(),
        }),
{
    match label {
        Some(s) => s.clone(),
        None => String::new(),
    }
}

/// The assets each question of a paper shows: for each question, the indices of the
/// assets recorded against it, in their listed order. A question listed twice shows
/// them only the first time.
pub open spec fn asset_indices_for(asset_question_ids: Seq<i64>, qid: i64) -> Seq<usize>
    decreases asset_question_ids.len(),
{
    if asset_question_ids.len() == 0 {
        Seq::empty()
    } else {
        let rest = asset_indices_for(asset_question_ids.drop_last(), qid);
        if asset_question_ids.last() == qid {
            rest.push((asset_question_ids.len() - 1) as usize)
        } else {
            rest
        }
    }
}

/// For each question of a paper, the indices of the assets shown under it.
pub fn paper_asset_slots(question_ids: &Vec<i64>, asset_question_ids: &Vec<i64>) -> (r: Vec<Vec<usize>>)
    ensures
        r@.len() == question_ids@.len(),
        forall|i: int| 0 <= i < question_ids@.len() ==> (#[trigger] r@[i])@ == (if question_ids@.take(i).contains(question_ids@[i]) {
            Seq::<usize>::empty()
        } else {
            asset_indices_for(asset_question_ids@, question_ids@[i])
        }),
{
    let mut slots: Vec<Vec<usize>> = Vec::new();
    let mut i: usize = 0;
    while i < question_ids.len()
        invariant
            i <= question_ids.len(),
            slots@.len() == i,
            forall|k: int| 0 <= k < i ==> (#[trigger] slots@[k])@ == (if question_ids@.take(k).contains(question_ids@[k]) {
                Seq::<usize>::empty()
            } else {
                asset_indices_for(asset_question_ids@, question_ids@[k])
            }),
        decreases question_ids.len() - i,
    {
        let qid = question_ids[i];
        let mut seen_before = false;
        let mut k: usize = 0;
        while k < i
            invariant
                k <= i,
                i < question_ids@.len(),
                qid == question_ids@[i as int],
                seen_before <==> question_ids@.take(k as int).contains(qid),
            decreases i - k,
        {
            assert(question_ids@.take(k + 1) =~= question_ids@.take(k as int).push(question_ids@[k as int]));
            if question_ids[k] == qid {
                seen_before = true;
            }
            proof {
                let s0 = question_ids@.take(k as int);
                let s1 = question_ids@.take(k + 1);
                if s1.contains(qid) {
                    let j = choose|j: int| 0 <= j < s1.len() && s1[j] == qid;
                    if j < k {
                        assert(s0[j] == qid);
                    }
                }
                if s0.contains(qid) {
                    let j = choose|j: int| 0 <= j < s0.len() && s0[j] == qid;
                    assert(s1[j] == qid);
                }
                if question_ids@[k as int] == qid {
                    assert(s1[k as int] == qid);
                }
            }
            k = k + 1;
        }
        let mut mine: Vec<usize> = Vec::new();
        if !seen_before {
            let mut a: usize = 0;
            while a < asset_question_ids.len()
                invariant
                    a <= asset_question_ids.len(),
                    mine@ == asset_indices_for(asset_question_ids@.take(a as int), qid),
                decreases asset_question_ids.len() - a,
            {
                assert(asset_question_ids@.take(a + 1).drop_last() =~= asset_question_ids@.take(a as int));
                if asset_question_ids[a] == qid {
                    mine.push(a);
                }
                a = a + 1;
            }
            assert(asset_question_ids@.take(asset_question_ids.len() as int) =~= asset_question_ids@);
        }
        slots.push(mine);
        i = i + 1;
    }
    slots
}

/// Every stored option id is either kept by an incoming option or removed, never both:
/// options survive edits under their ids, and nothing else does.
pub proof fn option_sync_keeps_or_removes_each_stored_option(
    existing: Seq<i64>,
    options: Seq<AdminPastPaperOptionInput>,
    writes: Seq<PastPaperOptionWrite>,
    removed: Seq<i64>,
)
    requires
        writes.len() == options.len(),
        forall|i: int| 0 <= i < options.len() ==> option_write_of(options[i], i, existing, #[trigger] writes[i]),
        removed == unclaimed_ids(existing, options),
    ensures
        forall|id: i64| #[trigger] existing.contains(id) ==> (removed.contains(id)
            <==> !exists|i: int| 0 <= i < writes.len() && #[trigger] writes[i].existing_id == Some(id)),
        forall|id: i64| #[trigger] removed.contains(id) ==> existing.contains(id),
{
    lemma_unclaimed_ids(existing, options);
    assert forall|id: i64| #[trigger] existing.contains(id) implies (removed.contains(id)
        <==> !exists|i: int| 0 <= i < writes.len() && #[trigger] writes[i].existing_id == Some(id)) by {
        if exists|i: int| 0 <= i < writes.len() && #[trigger] writes[i].existing_id == Some(id) {
            let i = choose|i: int| 0 <= i < writes.len() && #[trigger] writes[i].existing_id == Some(id);
            assert(option_write_of(options[i], i, existing, writes[i]));
            assert(options[i].option_id == Some(id));
            assert(option_claimed(options, id));
        }
        if option_claimed(options, id) {
            let i = choose|i: int| 0 <= i < options.len() && #[trigger] options[i].option_id == Some(id);
            assert(option_write_of(options[i], i, existing, writes[i]));
            assert(writes[i].existing_id == Some(id));
        }
    }
}

/// The stored ids left unclaimed are exactly the stored ids no option names.
pub proof fn lemma_unclaimed_ids(existing: Seq<i64>, options: Seq<AdminPastPaperOptionInput>)
    ensures
        forall|id: i64| #[trigger] unclaimed_ids(existing, options).contains(id)
            <==> (existing.contains(id) && !option_claimed(options, id)),
    decreases existing.len(),
{
    if existing.len() > 0 {
        let rest = existing.drop_last();
        lemma_unclaimed_ids(rest, options);
        let u = unclaimed_ids(rest, options);
        assert forall|id: i64| #[trigger] unclaimed_ids(existing, options).contains(id)
            <==> (existing.contains(id) && !option_claimed(options, id)) by {
            if existing.contains(id) {
                let k = choose|k: int| 0 <= k < existing.len() && existing[k] == id;
                if k < rest.len() {
                    assert(rest[k] == id);
                    assert(rest.contains(id));
                }
            }
            if rest.contains(id) {
                let k = choose|k: int| 0 <= k < rest.len() && rest[k] == id;
                assert(existing[k] == id);
            }
            if !option_claimed(options, existing.last()) {
                assert(unclaimed_ids(existing, options) == u.push(existing.last()));
                if u.contains(id) {
                    let k = choose|k: int| 0 <= k < u.len() && u[k] == id;
                    assert(unclaimed_ids(existing, options)[k] == id);
                }
                if unclaimed_ids(existing, options).contains(id) {
                    let k = choose|k: int| 0 <= k < u.len() + 1 && unclaimed_ids(existing, options)[k] == id;
                    if k < u.len() {
                        assert(u[k] == id);
                    }
                }
                if id == existing.last() {
                    assert(unclaimed_ids(existing, options)[u.len() as int] == id);
                }
            }
            assert(existing.last() == existing[existing.len() - 1]);
        }
    }
}

/// Each listed asset index names an asset recorded against that question.
pub proof fn lemma_asset_indices_for(asset_question_ids: Seq<i64>, qid: i64)
    requires
        asset_question_ids.len() <= usize::MAX,
    ensures
        forall|k: int| 0 <= k < asset_indices_for(asset_question_ids, qid).len() ==> {
            let a = #[trigger] asset_indices_for(asset_question_ids, qid)[k];
            &&& a < asset_question_ids.len()
            &&& asset_question_ids[a as int] == qid
        },
    decreases asset_question_ids.len(),
{
    if asset_question_ids.len() > 0 {
        let rest = asset_question_ids.drop_last();
        lemma_asset_indices_for(rest, qid);
        assert forall|k: int| 0 <= k < asset_indices_for(asset_question_ids, qid).len() implies {
            let a = #[trigger] asset_indices_for(asset_question_ids, qid)[k];
            &&& a < asset_question_ids.len()
            &&& asset_question_ids[a as int] == qid
        } by {
            let r0 = asset_indices_for(rest, qid);
            if k < r0.len() {
                assert(asset_indices_for(asset_question_ids, qid)[k] == r0[k]);
                assert(rest[r0[k] as int] == asset_question_ids[r0[k] as int]);
            } else {
                assert(asset_question_ids.last() == qid);
                assert(asset_indices_for(asset_question_ids, qid) == r0.push((asset_question_ids.len() - 1) as usize));
                assert(asset_indices_for(asset_question_ids, qid)[k] == (asset_question_ids.len() - 1) as usize);
            }
        }
    }
}

/// No asset is shown under two different questions of a paper.
pub proof fn paper_assets_go_to_one_question(question_ids: Seq<i64>, asset_question_ids: Seq<i64>, i: int, j: int, a: usize)
    requires
        asset_question_ids.len() <= usize::MAX,
        0 <= i < j < question_ids.len(),
        !question_ids.take(i).contains(question_ids[i]),
        asset_indices_for(asset_question_ids, question_ids[i]).contains(a),
    ensures
        question_ids.take(j).contains(question_ids[j]) || !asset_indices_for(asset_question_ids, question_ids[j]).contains(a),
{
    lemma_asset_indices_for(asset_question_ids, question_ids[i]);
    lemma_asset_indices_for(asset_question_ids, question_ids[j]);
    if asset_indices_for(asset_question_ids, question_ids[j]).contains(a) {
        let k1 = choose|k: int| 0 <= k < asset_indices_for(asset_question_ids, question_ids[i]).len()
            && asset_indices_for(asset_question_ids, question_ids[i])[k] == a;
        let k2 = choose|k: int| 0 <= k < asset_indices_for(asset_question_ids, question_ids[j]).len()
            && asset_indices_for(asset_question_ids, question_ids[j])[k] == a;
        assert(asset_question_ids[a as int] == question_ids[i]);
        assert(asset_question_ids[a as int] == question_ids[j]);
        assert(question_ids.take(j)[i] == question_ids[j]);
    }
}

} // verus!
