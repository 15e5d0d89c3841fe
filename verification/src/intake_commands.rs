//! Submission bundles: the source kind a bundle is filed under when it is offered to the
//! shared content pipeline, and the details of that offer.

use vstd::prelude::*;
use crate::error::CommandError;
use crate::product_vault::opt_view;
use crate::text::{blank, trimmed, decimal_text, is_blank, trim, text_eq, i64_text, lit, cat};

verus! {

/// The source kind a bundle of the given kind is registered as.
pub open spec fn bundle_source_kind(bundle_kind: Seq<char>) -> Seq<char> {
    if bundle_kind == "past_paper_bundle"@ || bundle_kind == "question_and_markscheme"@ {
        "past_question"@
    } else if bundle_kind == "report_card"@ || bundle_kind == "homework_bundle"@ || bundle_kind == "worksheet_bundle"@ {
        "worksheet"@
    } else if bundle_kind == "teacher_note_bundle"@ || bundle_kind == "class_note_bundle"@ {
        "guide"@
    } else {
        "worksheet"@
    }
}

/// The source kind a bundle is registered under when offered to the shared pipeline.
pub fn infer_bundle_source_kind(bundle_kind: &str) -> (r: String)
    ensures
        r@ == bundle_source_kind(bundle_kind@),
{
    if text_eq(bundle_kind, "past_paper_bundle") || text_eq(bundle_kind, "question_and_markscheme") {
        lit("past_question")
    } else if text_eq(bundle_kind, "report_card") || text_eq(bundle_kind, "homework_bundle")
        || text_eq(bundle_kind, "worksheet_bundle") {
        lit("worksheet")
    } else if text_eq(bundle_kind, "teacher_note_bundle") || text_eq(bundle_kind, "class_note_bundle") {
        lit("guide")
    } else {
        lit("worksheet")
    }
}

/// The subject names detected in a bundle, trimmed, without the blank ones, in order.
pub open spec fn subject_candidates(detected: Seq<Seq<char>>) -> Seq<Seq<char>>
    decreases detected.len(),
{
    if detected.len() == 0 {
        Seq::empty()
    } else {
        let rest = subject_candidates(detected.drop_last());
        if blank(detected.last()) { rest } else { rest.push(trimmed(detected.last())) }
    }
}

/// The names a subject code is looked up by.
pub fn subject_code_candidates(detected: &Vec<String>) -> (r: Vec<String>)
    ensures
        r.deep_view() == subject_candidates(detected.deep_view()),
{
    let mut out: Vec<String> = Vec::new();
    let mut i: usize = 0;
    while i < detected.len()
        invariant
            i <= detected.len(),
            out.deep_view() == subject_candidates(detected.deep_view().take(i as int)),
        decreases detected.len() - i,
    {
        assert(detected.deep_view().take(i + 1).drop_last() =~= detected.deep_view().take(i as int));
        assert(detected.deep_view().take(i + 1).last() == detected@[i as int]@);
        if !is_blank(detected[i].as_str()) {
            let ghost before = out.deep_view();
            let t = trim(detected[i].as_str());
            out.push(t);
            assert(out.deep_view() =~= before.push(trimmed(detected@[i as int]@)));
        }
        i = i + 1;
    }
    assert(detected.deep_view().take(detected.len() as int) =~= detected.deep_view());
    out
}

/// The first code found.
pub open spec fn first_code(found: Seq<Option<Seq<char>>>) -> Option<Seq<char>>
    decreases found.len(),
{
    if found.len() == 0 {
        None
    } else if found[0] is Some {
        found[0]
    } else {
        first_code(found.drop_first())
    }
}

/// The subject code of a bundle: the code found for the first candidate that has one.
pub fn detect_subject_code(found: &Vec<Option<String>>) -> (r: Option<String>)
    ensures
        opt_view(r) == first_code(found@.map_values(|o: Option<String>| opt_view(o))),
{
    let ghost all = found@.map_values(|o: Option<String>| opt_view(o));
    let mut i: usize = 0;
    assert(all.skip(0) =~= all);
    while i < found.len()
        invariant
            i <= found.len(),
            all == found@.map_values(|o: Option<String>| opt_view(o)),
            first_code(all) == first_code(all.skip(i as int)),
        decreases found.len() - i,
    {
        assert(all.skip(i as int).drop_first() =~= all.skip(i + 1));
        assert(all.skip(i as int)[0] == opt_view(found@[i as int]));
        match &found[i] {
            Some(code) => {
                return Some(code.clone());
            },
            None => {},
        }
        i = i + 1;
    }
    assert(all.skip(i as int) =~= Seq::<Option<Seq<char>>>::empty());
    None
}

/// What a bundle offered to the shared pipeline is registered with.
#[derive(Clone, Debug)]
pub struct SharedPromotionPlan {
    pub uploader_account_id: i64,
    pub source_kind: String,
    pub title: String,
    pub source_path: Option<String>,
    pub subject_code: Option<String>,
    pub academic_year: Option<String>,
    pub language_code: Option<String>,
    pub version_label: Option<String>,
}

/// Offers a bundle to the shared pipeline: it needs at least one file, whose path is the
/// source's; the requester (else the bundle's student) uploads it; the kind given wins
/// over the kind inferred; the first detected exam year is the academic year.
pub fn plan_shared_promotion(
    student_id: i64,
    bundle_title: &str,
    bundle_kind: &str,
    requested_by_account_id: Option<i64>,
    source_kind_override: Option<String>,
    primary_file_path: Option<String>,
    subject_code: Option<String>,
    first_exam_year: Option<i64>,
) -> (r: Result<SharedPromotionPlan, CommandError>)
    ensures
        r is Ok <==> primary_file_path is Some,
        r matches Err(e) ==> e.code@ == "validation_error"@
            && e.message@ == "bundle must contain at least one file to promote"@,
        r matches Ok(p) ==> {
            &&& p.uploader_account_id == (match requested_by_account_id {
                Some(a) => a,
                None => student_id,
            })
            &&& p.source_kind@ == (match source_kind_override {
                Some(k) => k@,
                None => bundle_source_kind(bundle_kind@),
            })
            &&& p.title@ == "Vault Candidate: "@ + bundle_title@
            &&& opt_view(p.source_path) == opt_view(primary_file_path)
            &&& opt_view(p.subject_code) == opt_view(subject_code)
            &&& opt_view(p.academic_year) == (match first_exam_year {
                Some(y) => Some(decimal_text(y as int)),
                None => None,
            })
            &&& opt_view(p.language_code) == Some("en"@)
            &&& opt_view(p.version_label) == Some("vault_candidate"@)
        },
{
    let path = match primary_file_path {
        Some(p) => p,
        None => {
            return Err(CommandError::new("validation_error", lit("bundle must contain at least one file to promote")));
        },
    };
    let uploader_account_id = match requested_by_account_id {
        Some(a) => a,
        None => student_id,
    };
    let source_kind = match source_kind_override {
        Some(k) => k,
        None => infer_bundle_source_kind(bundle_kind),
    };
    let academic_year = match first_exam_year {
        Some(y) => Some(i64_text(y)),
        None => None,
    };
    Ok(SharedPromotionPlan {
        uploader_account_id,
        source_kind,
        title: cat(lit("Vault Candidate: "), bundle_title),
        source_path: Some(path),
        subject_code,
        academic_year,
        language_code: Some(lit("en")),
        version_label: Some(lit("vault_candidate")),
    })
}

} // verus!
