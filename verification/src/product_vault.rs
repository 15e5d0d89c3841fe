//! Entitlements, the personal academic vault, OCR recovery, the AReal companion and
//! the control tower's follow-ups.

use vstd::prelude::*;

use crate::product_commands::{
    action, actions_view, copy_action, copy_actions, AcademicVaultBundleDto, AcademicVaultFileDto,
    ActionRecommendationDto, ActionView, ARealGuidanceEventDto, ARealProfileDto, ARealProfileInputDto, ARealSurfaceDto,
    ManagedEntitlementAccountDto, OcrRecoveryObjectDto, PersonalAcademicVaultDto, SourceGovernanceObjectDto,
};
use crate::text::{
    dedup_strings, first_occurrences, has_part, joined, join_texts, less_text, lemma_text_less_asymmetric,
    lemma_text_less_irreflexive, lemma_text_less_total, lemma_text_less_transitive, text_eq, text_less,
    contains_text, decimal_text, i64_text,
};

verus! {

/// Texts in strictly increasing order, hence each at most once.
pub open spec fn sorted_strictly(s: Seq<Seq<char>>) -> bool {
    forall|i: int, j: int| 0 <= i < j < s.len() ==> text_less(#[trigger] s[i], #[trigger] s[j])
}

/// Inserts a text into a strictly sorted list unless it is already there.
pub fn insert_sorted(set: &mut Vec<String>, x: String)
    requires
        sorted_strictly(old(set).deep_view()),
    ensures
        sorted_strictly(final(set).deep_view()),
        forall|y: Seq<char>| #[trigger] final(set).deep_view().contains(y) <==> (old(set).deep_view().contains(y) || y == x@),
{
    let ghost s0 = set.deep_view();
    let mut k: usize = 0;
    while k < set.len() && less_text(&set[k], &x)
        invariant
            k <= set.len(),
            set.deep_view() == s0,
            forall|j: int| 0 <= j < k ==> text_less(#[trigger] s0[j], x@),
        decreases set.len() - k,
    {
        k = k + 1;
    }
    if k < set.len() && set[k] == x {
        assert(s0[k as int] == x@);
        assert forall|y: Seq<char>| #[trigger] set.deep_view().contains(y) <==> (s0.contains(y) || y == x@) by {
            if y == x@ {
                assert(s0[k as int] == y);
            }
        }
        return;
    }
    proof {
        if k < s0.len() {
            lemma_text_less_total(s0[k as int], x@);
        }
    }
    set.insert(k, x);
    let ghost s1 = set.deep_view();
    assert(s1 =~= s0.take(k as int).push(x@) + s0.skip(k as int));
    assert forall|i: int, j: int| 0 <= i < j < s1.len() implies text_less(#[trigger] s1[i], #[trigger] s1[j]) by {
        if j < k {
            assert(s1[i] == s0[i] && s1[j] == s0[j]);
        } else if j == k {
            assert(s1[i] == s0[i]);
        } else if i == k {
            assert(s1[j] == s0[j - 1]);
            if j - 1 > k {
                assert(text_less(s0[k as int], s0[j - 1]));
                lemma_text_less_transitive(x@, s0[k as int], s0[j - 1]);
            }
        } else if i < k {
            assert(s1[i] == s0[i] && s1[j] == s0[j - 1]);
        } else {
            assert(s1[i] == s0[i - 1] && s1[j] == s0[j - 1]);
        }
    }
    assert forall|y: Seq<char>| #[trigger] s1.contains(y) <==> (s0.contains(y) || y == x@) by {
        if s1.contains(y) {
            let i = choose|i: int| 0 <= i < s1.len() && s1[i] == y;
            if i < k {
                assert(s0[i] == y);
            } else if i > k {
                assert(s0[i - 1] == y);
            }
        }
        if s0.contains(y) {
            let i = choose|i: int| 0 <= i < s0.len() && s0[i] == y;
            if i < k {
                assert(s1[i] == y);
            } else {
                assert(s1[i + 1] == y);
            }
        }
        if y == x@ {
            assert(s1[k as int] == y);
        }
    }
}

/// `r` lists the `n` least distinct texts of `pool` in increasing order, or all of them
/// when there are fewer: what collecting into a sorted set and taking `n` gives.
pub open spec fn least_distinct(r: Seq<Seq<char>>, pool: Seq<Seq<char>>, n: int) -> bool {
    &&& sorted_strictly(r)
    &&& r.len() <= n
    &&& forall|i: int| 0 <= i < r.len() ==> pool.contains(#[trigger] r[i])
    &&& forall|x: Seq<char>| #[trigger] pool.contains(x) && !r.contains(x) ==> r.len() == n && (n > 0 ==> text_less(r.last(), x))
}

/// A growing sorted set of texts, each seen text once.
pub struct TextSet {
    pub items: Vec<String>,
}

impl TextSet {
    pub open spec fn holds(&self, pool: Seq<Seq<char>>) -> bool {
        &&& sorted_strictly(self.items.deep_view())
        &&& forall|y: Seq<char>| #[trigger] self.items.deep_view().contains(y) <==> pool.contains(y)
    }

    pub fn new() -> (r: TextSet)
        ensures
            r.holds(Seq::empty()),
    {
        TextSet { items: Vec::new() }
    }

    pub fn add_all(&mut self, texts: &Vec<String>, Ghost(pool): Ghost<Seq<Seq<char>>>)
        requires
            old(self).holds(pool),
        ensures
            final(self).holds(pool + texts.deep_view()),
    {
        let mut i: usize = 0;
        while i < texts.len()
            invariant
                i <= texts.len(),
                self.holds(pool + texts.deep_view().take(i as int)),
            decreases texts.len() - i,
        {
            let ghost before = pool + texts.deep_view().take(i as int);
            insert_sorted(&mut self.items, texts[i].clone());
            let ghost after = pool + texts.deep_view().take(i + 1);
            assert(after =~= before.push(texts.deep_view()[i as int]));
            assert forall|y: Seq<char>| #[trigger] self.items.deep_view().contains(y) <==> after.contains(y) by {
                if after.contains(y) {
                    let j = choose|j: int| 0 <= j < after.len() && after[j] == y;
                    if j < before.len() {
                        assert(before[j] == y);
                    }
                }
                if before.contains(y) {
                    let j = choose|j: int| 0 <= j < before.len() && before[j] == y;
                    assert(after[j] == y);
                }
                if y == texts.deep_view()[i as int] {
                    assert(after[before.len() as int] == y);
                }
            }
            i = i + 1;
        }
        assert(texts.deep_view().take(texts.len() as int) =~= texts.deep_view());
    }

    /// The `n` least texts of the set, in order.
    pub fn least(&self, n: usize, Ghost(pool): Ghost<Seq<Seq<char>>>) -> (r: Vec<String>)
        requires
            self.holds(pool),
        ensures
            least_distinct(r.deep_view(), pool, n as int),
    {
        let ghost s = self.items.deep_view();
        let mut out: Vec<String> = Vec::new();
        let mut i: usize = 0;
        while i < self.items.len() && i < n
            invariant
                i <= self.items.len(),
                i <= n,
                self.holds(pool),
                s == self.items.deep_view(),
                out.deep_view() == s.take(i as int),
            decreases self.items.len() - i,
        {
            let ghost old = out.deep_view();
            let c = self.items[i].clone();
            out.push(c);
            assert(out.deep_view() =~= old.push(c@));
            assert(out.deep_view() =~= s.take(i + 1));
            i = i + 1;
        }
        let ghost r = out.deep_view();
        assert forall|a: int, b: int| 0 <= a < b < r.len() implies text_less(#[trigger] r[a], #[trigger] r[b]) by {
            assert(r[a] == s[a] && r[b] == s[b]);
        }
        assert forall|j: int| 0 <= j < r.len() implies pool.contains(#[trigger] r[j]) by {
            assert(s.contains(s[j]));
        }
        assert forall|x: Seq<char>| #[trigger] pool.contains(x) && !r.contains(x) implies r.len() == n && (n > 0 ==> text_less(r.last(), x)) by {
            assert(s.contains(x));
            let j = choose|j: int| 0 <= j < s.len() && s[j] == x;
            if j < i {
                assert(r[j] == x);
            }
            assert(j >= i);
            if n > 0 {
                assert(r[i - 1] == s[i - 1]);
                assert(text_less(s[i - 1], s[j]));
            }
        }
        out
    }
}


/// An exact copy of a list of texts.
pub fn copy_texts(v: &Vec<String>) -> (r: Vec<String>)
    ensures
        r.deep_view() == v.deep_view(),
{
    let mut out: Vec<String> = Vec::new();
    let mut i: usize = 0;
    while i < v.len()
        invariant
            i <= v.len(),
            out.deep_view() == v.deep_view().take(i as int),
        decreases v.len() - i,
    {
        let ghost old = out.deep_view();
        let c = v[i].clone();
        out.push(c);
        assert(out.deep_view() =~= old.push(c@));
        assert(out.deep_view() =~= v.deep_view().take(i + 1));
        i = i + 1;
    }
    assert(v.deep_view().take(v.len() as int) =~= v.deep_view());
    out
}

/// The first `n` texts of a list (all of them when it is shorter).
pub fn first_texts(v: &Vec<String>, n: usize) -> (r: Vec<String>)
    ensures
        r.deep_view() == v.deep_view().take(if n < v@.len() { n as int } else { v@.len() as int }),
{
    let mut out: Vec<String> = Vec::new();
    let mut i: usize = 0;
    while i < v.len() && i < n
        invariant
            i <= v.len(),
            i <= n,
            out.deep_view() == v.deep_view().take(i as int),
        decreases v.len() - i,
    {
        let ghost old = out.deep_view();
        let c = v[i].clone();
        out.push(c);
        assert(out.deep_view() =~= old.push(c@));
        assert(out.deep_view() =~= v.deep_view().take(i + 1));
        i = i + 1;
    }
    out
}

pub open spec fn opt_view(o: Option<String>) -> Option<Seq<char>> {
    match o {
        Some(s) => Some(s@),
        None => None,
    }
}

/// A copy of an optional text.
pub fn copy_opt(o: &Option<String>) -> (r: Option<String>)
    ensures
        opt_view(r) == opt_view(*o),
{
    match o {
        Some(s) => Some(s.clone()),
        None => None,
    }
}

/// What the reconstruction insight of an uploaded file says about it.
#[derive(Clone, Debug)]
pub struct VaultFileInsight {
    pub document_role: Option<String>,
    pub document_origin: Option<String>,
    pub ocr_status: Option<String>,
    pub layout_status: Option<String>,
    pub layout_kind: Option<String>,
    /// Topics from the document-intelligence section of the insight.
    pub intelligence_topics: Vec<String>,
    /// Topics listed at the top level of the insight.
    pub listed_topics: Vec<String>,
    pub intelligence_patterns: Vec<String>,
    pub listed_patterns: Vec<String>,
    pub review_reasons: Vec<String>,
}

/// A file of a submission bundle.
#[derive(Clone, Debug)]
pub struct BundleFileView {
    pub id: i64,
    pub file_name: String,
    pub file_kind: String,
}

pub open spec fn status_or_unknown(o: Option<String>) -> Seq<char> {
    match o {
        Some(s) => s@,
        None => "unknown"@,
    }
}

pub open spec fn preferred_list(primary: Seq<Seq<char>>, fallback: Seq<Seq<char>>) -> Seq<Seq<char>> {
    if primary.len() == 0 { fallback } else { primary }
}

/// The vault entry of a file: its identity, plus what its insight says, with unknown
/// statuses when the insight is silent and the intelligence lists preferred over the
/// top-level ones.
pub open spec fn vault_file_spec(file: BundleFileView, insight: Option<VaultFileInsight>, d: AcademicVaultFileDto) -> bool {
    &&& d.file_id == file.id
    &&& d.file_name@ == file.file_name@
    &&& d.file_kind@ == file.file_kind@
    &&& match insight {
        Some(p) => {
            &&& opt_view(d.document_role) == opt_view(p.document_role)
            &&& opt_view(d.document_origin) == opt_view(p.document_origin)
            &&& d.ocr_status@ == status_or_unknown(p.ocr_status)
            &&& d.layout_status@ == status_or_unknown(p.layout_status)
            &&& opt_view(d.layout_kind) == opt_view(p.layout_kind)
            &&& d.detected_topics.deep_view() == preferred_list(p.intelligence_topics.deep_view(), p.listed_topics.deep_view())
            &&& d.question_patterns.deep_view() == preferred_list(p.intelligence_patterns.deep_view(), p.listed_patterns.deep_view())
            &&& d.review_reasons.deep_view() == p.review_reasons.deep_view()
        },
        None => {
            &&& d.document_role is None
            &&& d.document_origin is None
            &&& d.ocr_status@ == "unknown"@
            &&& d.layout_status@ == "unknown"@
            &&& d.layout_kind is None
            &&& d.detected_topics@.len() == 0
            &&& d.question_patterns@.len() == 0
            &&& d.review_reasons@.len() == 0
        },
    }
}

/// A status, or "unknown" when there is none.
pub fn status_text(o: &Option<String>) -> (r: String)
    ensures
        r@ == status_or_unknown(*o),
{
    match o {
        Some(s) => s.clone(),
        None => "unknown".to_string(),
    }
}

/// A bundle file as the vault shows it, with what its insight says about it.
pub fn build_vault_file_dto(file: &BundleFileView, insight: Option<&VaultFileInsight>) -> (d: AcademicVaultFileDto)
    ensures
        vault_file_spec(*file, match insight { Some(p) => Some(*p), None => None }, d),
{
    match insight {
        Some(p) => AcademicVaultFileDto {
            file_id: file.id,
            file_name: file.file_name.clone(),
            file_kind: file.file_kind.clone(),
            document_role: copy_opt(&p.document_role),
            document_origin: copy_opt(&p.document_origin),
            ocr_status: status_text(&p.ocr_status),
            layout_status: status_text(&p.layout_status),
            layout_kind: copy_opt(&p.layout_kind),
            detected_topics: if p.intelligence_topics.len() == 0 {
                copy_texts(&p.listed_topics)
            } else {
                copy_texts(&p.intelligence_topics)
            },
            question_patterns: if p.intelligence_patterns.len() == 0 {
                copy_texts(&p.listed_patterns)
            } else {
                copy_texts(&p.intelligence_patterns)
            },
            review_reasons: copy_texts(&p.review_reasons),
        },
        None => AcademicVaultFileDto {
            file_id: file.id,
            file_name: file.file_name.clone(),
            file_kind: file.file_kind.clone(),
            document_role: None,
            document_origin: None,
            ocr_status: "unknown".to_string(),
            layout_status: "unknown".to_string(),
            layout_kind: None,
            detected_topics: Vec::new(),
            question_patterns: Vec::new(),
            review_reasons: Vec::new(),
        },
    }
}

/// OCR statuses that still need recovery work.
pub open spec fn ocr_status_needs_work(s: Seq<char>) -> bool {
    s == "required"@ || s == "pending_ocr"@ || s == "limited"@ || s == "unknown"@
}

/// Review reasons that point at OCR or layout trouble.
pub open spec fn ocr_reason(s: Seq<char>) -> bool {
    s == "ocr_required"@ || s == "low_ocr_confidence"@ || s == "weak_question_layout"@ || s == "weak_answer_layout"@
}

pub open spec fn needs_ocr_attention(ocr_status: Seq<char>, reasons: Seq<Seq<char>>) -> bool {
    ocr_status_needs_work(ocr_status) || exists|i: int| 0 <= i < reasons.len() && ocr_reason(#[trigger] reasons[i])
}

/// A file needs OCR attention when its OCR status is not settled or a review reason
/// points at OCR or layout trouble.
pub fn ocr_object_needs_attention(item: &AcademicVaultFileDto) -> (r: bool)
    ensures
        r == needs_ocr_attention(item.ocr_status@, item.review_reasons.deep_view()),
{
    ocr_attention(item.ocr_status.as_str(), &item.review_reasons)
}

/// Whether a file with this OCR status and these review reasons needs OCR attention.
pub fn ocr_attention(ocr_status: &str, reasons: &Vec<String>) -> (r: bool)
    ensures
        r == needs_ocr_attention(ocr_status@, reasons.deep_view()),
{
    if text_eq(ocr_status, "required") || text_eq(ocr_status, "pending_ocr") || text_eq(ocr_status, "limited")
        || text_eq(ocr_status, "unknown") {
        return true;
    }
    let mut i: usize = 0;
    while i < reasons.len()
        invariant
            i <= reasons.len(),
            forall|k: int| 0 <= k < i ==> !ocr_reason(#[trigger] reasons.deep_view()[k]),
        decreases reasons.len() - i,
    {
        let r = reasons[i].as_str();
        if text_eq(r, "ocr_required") || text_eq(r, "low_ocr_confidence") || text_eq(r, "weak_question_layout")
            || text_eq(r, "weak_answer_layout") {
            assert(ocr_reason(reasons.deep_view()[i as int]));
            return true;
        }
        i = i + 1;
    }
    false
}

/// Files whose question patterns show how the teacher sets work: teacher-provided
/// documents, handouts, question papers and corrected scripts.
pub open spec fn teacher_styled(d: AcademicVaultFileDto) -> bool {
    opt_view(d.document_origin) == Some("teacher_provided"@)
        || opt_view(d.document_role) == Some("teacher_handout"@)
        || opt_view(d.document_role) == Some("question_paper"@)
        || opt_view(d.document_role) == Some("corrected_script"@)
}

/// Whether a file reads as teacher-marked work.
pub fn is_teacher_styled(d: &AcademicVaultFileDto) -> (r: bool)
    ensures
        r == teacher_styled(*d),
{
    let origin = match &d.document_origin {
        Some(o) => text_eq(o.as_str(), "teacher_provided"),
        None => false,
    };
    let role = match &d.document_role {
        Some(o) => text_eq(o.as_str(), "teacher_handout") || text_eq(o.as_str(), "question_paper") || text_eq(
            o.as_str(),
            "corrected_script",
        ),
        None => false,
    };
    origin || role
}

/// An extracted insight of a bundle, with the file it names.
#[derive(Clone, Debug)]
pub struct BundleInsightRef {
    pub insight_type: String,
    pub file_id: Option<i64>,
    pub file_name: Option<String>,
    pub payload: VaultFileInsight,
}

pub open spec fn insight_names_file(i: BundleInsightRef, file: BundleFileView) -> bool {
    &&& i.insight_type@ == "file_reconstruction"@
    &&& (i.file_id == Some(file.id) || opt_view(i.file_name) == Some(file.file_name@))
}

/// The first file-reconstruction insight that names the file, by id or by name.
pub fn find_file_insight(insights: &Vec<BundleInsightRef>, file: &BundleFileView) -> (r: Option<usize>)
    ensures
        r matches Some(k) ==> k < insights@.len() && insight_names_file(insights@[k as int], *file)
            && forall|j: int| 0 <= j < k ==> !insight_names_file(#[trigger] insights@[j], *file),
        r is None ==> forall|j: int| 0 <= j < insights@.len() ==> !insight_names_file(#[trigger] insights@[j], *file),
{
    let mut i: usize = 0;
    while i < insights.len()
        invariant
            i <= insights.len(),
            forall|j: int| 0 <= j < i ==> !insight_names_file(#[trigger] insights@[j], *file),
        decreases insights.len() - i,
    {
        let ins = &insights[i];
        if text_eq(ins.insight_type.as_str(), "file_reconstruction") {
            let by_id = match ins.file_id {
                Some(id) => id == file.id,
                None => false,
            };
            let by_name = match &ins.file_name {
                Some(n) => text_eq(n.as_str(), file.file_name.as_str()),
                None => false,
            };
            if by_id || by_name {
                return Some(i);
            }
        }
        i = i + 1;
    }
    None
}


/// A recent submission bundle as stored.
#[derive(Clone, Debug)]
pub struct BundleVaultRow {
    pub bundle_id: i64,
    pub title: String,
    pub status: String,
    pub created_at: String,
    pub updated_at: String,
    pub confirmation_state: String,
    pub coach_application_status: String,
    pub shared_promotion_status: Option<String>,
}

/// The intake report of a bundle.
#[derive(Clone, Debug)]
pub struct BundleReportView {
    pub review_priority: String,
    pub needs_confirmation: bool,
    pub bundle_kind: String,
    pub detected_subjects: Vec<String>,
    pub detected_topics: Vec<String>,
    pub weakness_signals: Vec<String>,
    pub recommended_actions: Vec<String>,
}

/// The bundle's entry in the review inbox, when it has one.
#[derive(Clone, Debug)]
pub struct InboxItemView {
    pub review_priority: String,
    pub summary_points: Vec<String>,
}

/// Everything the vault reads about one bundle.
#[derive(Clone, Debug)]
pub struct VaultBundleInput {
    pub row: BundleVaultRow,
    pub report: BundleReportView,
    pub inbox: Option<InboxItemView>,
    pub files: Vec<BundleFileView>,
    pub insights: Vec<BundleInsightRef>,
}

pub open spec fn bundle_priority(b: VaultBundleInput) -> Seq<char> {
    match b.inbox {
        Some(i) => i.review_priority@,
        None => b.report.review_priority@,
    }
}

pub open spec fn bundle_summary_points(b: VaultBundleInput) -> Seq<Seq<char>> {
    match b.inbox {
        Some(i) => i.summary_points.deep_view(),
        None => {
            let a = b.report.recommended_actions.deep_view();
            a.take(if a.len() < 3 { a.len() as int } else { 3 })
        },
    }
}

pub open spec fn bundle_urgent(b: VaultBundleInput) -> bool {
    bundle_priority(b) == "high"@ || b.report.needs_confirmation
}

pub open spec fn promotion_pending(b: VaultBundleInput) -> bool {
    opt_view(b.row.shared_promotion_status) == Some("queued"@) || opt_view(b.row.shared_promotion_status) == Some("approved"@)
}

/// The insight a file is described by, if any.
pub open spec fn file_insight(insights: Seq<BundleInsightRef>, file: BundleFileView) -> Option<VaultFileInsight> {
    if exists|k: int| 0 <= k < insights.len() && insight_names_file(insights[k], file) {
        let k = choose|k: int| 0 <= k < insights.len() && insight_names_file(insights[k], file)
            && forall|j: int| 0 <= j < k ==> !insight_names_file(#[trigger] insights[j], file);
        Some(insights[k].payload)
    } else {
        None
    }
}

/// The vault entry of a bundle.
pub open spec fn vault_bundle_spec(b: VaultBundleInput, d: AcademicVaultBundleDto) -> bool {
    &&& d.bundle_id == b.row.bundle_id
    &&& d.title@ == b.row.title@
    &&& d.status@ == b.row.status@
    &&& d.created_at@ == b.row.created_at@
    &&& d.updated_at@ == b.row.updated_at@
    &&& d.confirmation_state@ == b.row.confirmation_state@
    &&& d.coach_application_status@ == b.row.coach_application_status@
    &&& d.review_priority@ == bundle_priority(b)
    &&& d.bundle_kind@ == b.report.bundle_kind@
    &&& opt_view(d.shared_promotion_status) == opt_view(b.row.shared_promotion_status)
    &&& d.detected_subjects.deep_view() == b.report.detected_subjects.deep_view()
    &&& d.detected_topics.deep_view() == b.report.detected_topics.deep_view()
    &&& d.weakness_signals.deep_view() == b.report.weakness_signals.deep_view()
    &&& d.recommended_actions.deep_view() == b.report.recommended_actions.deep_view()
    &&& d.summary_points.deep_view() == bundle_summary_points(b)
    &&& d.files@.len() == b.files@.len()
    &&& forall|i: int| 0 <= i < b.files@.len() ==> vault_file_spec(b.files@[i], file_insight(b.insights@, b.files@[i]), #[trigger] d.files@[i])
}

pub open spec fn ocr_count_of(files: Seq<AcademicVaultFileDto>) -> int
    decreases files.len(),
{
    if files.len() == 0 {
        0
    } else {
        ocr_count_of(files.drop_last()) + if needs_ocr_attention(files.last().ocr_status@, files.last().review_reasons.deep_view()) { 1int } else { 0int }
    }
}

pub open spec fn teacher_patterns_of(files: Seq<AcademicVaultFileDto>) -> Seq<Seq<char>>
    decreases files.len(),
{
    if files.len() == 0 {
        Seq::empty()
    } else {
        teacher_patterns_of(files.drop_last()) + if teacher_styled(files.last()) { files.last().question_patterns.deep_view() } else { Seq::empty() }
    }
}

/// Builds a bundle's vault entry, counting the files that need OCR attention and
/// collecting the question patterns of teacher-styled files.
pub fn build_vault_bundle(b: &VaultBundleInput) -> (r: (AcademicVaultBundleDto, i64, Vec<String>))
    requires
        b.files@.len() <= i64::MAX,
    ensures
        vault_bundle_spec(*b, r.0),
        r.1 == ocr_count_of(r.0.files@),
        r.2.deep_view() == teacher_patterns_of(r.0.files@),
{
    let mut files: Vec<AcademicVaultFileDto> = Vec::new();
    let mut ocr: i64 = 0;
    let mut patterns: Vec<String> = Vec::new();
    let mut i: usize = 0;
    while i < b.files.len()
        invariant
            i <= b.files.len(),
            b.files@.len() <= i64::MAX,
            files@.len() == i,
            forall|k: int| 0 <= k < i ==> vault_file_spec(b.files@[k], file_insight(b.insights@, b.files@[k]), #[trigger] files@[k]),
            ocr == ocr_count_of(files@),
            0 <= ocr <= i,
            patterns.deep_view() == teacher_patterns_of(files@),
        decreases b.files.len() - i,
    {
        let f = &b.files[i];
        let k = find_file_insight(&b.insights, f);
        let ghost gi = file_insight(b.insights@, *f);
        let d = match k {
            Some(idx) => {
                proof {
                    assert(insight_names_file(b.insights@[idx as int], *f));
                    let c = choose|c: int| 0 <= c < b.insights@.len() && insight_names_file(b.insights@[c], *f)
                        && forall|j: int| 0 <= j < c ==> !insight_names_file(#[trigger] b.insights@[j], *f);
                    if c < idx {
                    } else if c > idx {
                        assert(!insight_names_file(b.insights@[idx as int], *f));
                    }
                    assert(c == idx);
                }
                build_vault_file_dto(f, Some(&b.insights[idx].payload))
            },
            None => build_vault_file_dto(f, None),
        };
        let needs = ocr_object_needs_attention(&d);
        let styled = is_teacher_styled(&d);
        let ghost before = files@;
        if styled {
            let mut more = copy_texts(&d.question_patterns);
            patterns.append(&mut more);
        }
        files.push(d);
        assert(files@.drop_last() =~= before);
        if needs {
            ocr = ocr + 1;
        }
        i = i + 1;
    }
    let review_priority = match &b.inbox {
        Some(item) => item.review_priority.clone(),
        None => b.report.review_priority.clone(),
    };
    let summary_points = match &b.inbox {
        Some(item) => copy_texts(&item.summary_points),
        None => first_texts(&b.report.recommended_actions, 3),
    };
    let dto = AcademicVaultBundleDto {
        bundle_id: b.row.bundle_id,
        title: b.row.title.clone(),
        status: b.row.status.clone(),
        created_at: b.row.created_at.clone(),
        updated_at: b.row.updated_at.clone(),
        confirmation_state: b.row.confirmation_state.clone(),
        coach_application_status: b.row.coach_application_status.clone(),
        review_priority,
        bundle_kind: b.report.bundle_kind.clone(),
        shared_promotion_status: copy_opt(&b.row.shared_promotion_status),
        detected_subjects: copy_texts(&b.report.detected_subjects),
        detected_topics: copy_texts(&b.report.detected_topics),
        weakness_signals: copy_texts(&b.report.weakness_signals),
        recommended_actions: copy_texts(&b.report.recommended_actions),
        summary_points,
        files,
    };
    (dto, ocr, patterns)
}


pub open spec fn topic_pool(inputs: Seq<VaultBundleInput>) -> Seq<Seq<char>>
    decreases inputs.len(),
{
    if inputs.len() == 0 { Seq::empty() } else { topic_pool(inputs.drop_last()) + inputs.last().report.detected_topics.deep_view() }
}

pub open spec fn weakness_pool(inputs: Seq<VaultBundleInput>) -> Seq<Seq<char>>
    decreases inputs.len(),
{
    if inputs.len() == 0 { Seq::empty() } else { weakness_pool(inputs.drop_last()) + inputs.last().report.weakness_signals.deep_view() }
}

pub open spec fn teacher_pool(bundles: Seq<AcademicVaultBundleDto>) -> Seq<Seq<char>>
    decreases bundles.len(),
{
    if bundles.len() == 0 { Seq::empty() } else { teacher_pool(bundles.drop_last()) + teacher_patterns_of(bundles.last().files@) }
}

pub open spec fn ocr_total(bundles: Seq<AcademicVaultBundleDto>) -> int
    decreases bundles.len(),
{
    if bundles.len() == 0 { 0 } else { ocr_total(bundles.drop_last()) + ocr_count_of(bundles.last().files@) }
}

pub open spec fn urgent_count(inputs: Seq<VaultBundleInput>) -> int
    decreases inputs.len(),
{
    if inputs.len() == 0 { 0 } else { urgent_count(inputs.drop_last()) + if bundle_urgent(inputs.last()) { 1int } else { 0int } }
}

pub open spec fn pending_count(inputs: Seq<VaultBundleInput>) -> int
    decreases inputs.len(),
{
    if inputs.len() == 0 { 0 } else { pending_count(inputs.drop_last()) + if promotion_pending(inputs.last()) { 1int } else { 0int } }
}

/// The files needing OCR attention are no more than the files.
pub proof fn lemma_ocr_count_bound(files: Seq<AcademicVaultFileDto>)
    ensures
        0 <= ocr_count_of(files) <= files.len(),
    decreases files.len(),
{
    if files.len() > 0 {
        lemma_ocr_count_bound(files.drop_last());
    }
}

/// How many files the bundles hold together.
pub open spec fn file_total(inputs: Seq<VaultBundleInput>) -> int
    decreases inputs.len(),
{
    if inputs.len() == 0 { 0 } else { file_total(inputs.drop_last()) + inputs.last().files@.len() }
}

/// A prefix of the bundles holds no more files than all of them.
pub proof fn lemma_file_total_prefix(inputs: Seq<VaultBundleInput>, i: int)
    requires
        0 <= i <= inputs.len(),
    ensures
        0 <= file_total(inputs.take(i)) <= file_total(inputs),
    decreases inputs.len() - i,
{
    if i < inputs.len() {
        lemma_file_total_prefix(inputs, i + 1);
        assert(inputs.take(i + 1).drop_last() =~= inputs.take(i));
    } else {
        assert(inputs.take(i) =~= inputs);
    }
    lemma_file_total_nonneg(inputs.take(i));
}

proof fn lemma_file_total_nonneg(inputs: Seq<VaultBundleInput>)
    ensures
        file_total(inputs) >= 0,
    decreases inputs.len(),
{
    if inputs.len() > 0 {
        lemma_file_total_nonneg(inputs.drop_last());
    }
}

/// The personal academic vault of a student: one entry per recent bundle, how many
/// bundles need urgent review, files that need OCR attention and promotions waiting,
/// and the twelve first (in sorted order) distinct topics, weakness signals and
/// teacher-style question patterns across the bundles.
pub fn get_personal_academic_vault(
    student_id: i64,
    student_name: String,
    inputs: &Vec<VaultBundleInput>,
) -> (r: PersonalAcademicVaultDto)
    requires
        inputs@.len() <= i64::MAX,
        file_total(inputs@) <= i64::MAX,
    ensures
        crate::clock::utc_timestamp_text(r.generated_at@),
        r.student_id == student_id,
        r.student_name@ == student_name@,
        r.bundles@.len() == inputs@.len(),
        forall|i: int| 0 <= i < inputs@.len() ==> vault_bundle_spec(inputs@[i], #[trigger] r.bundles@[i]),
        r.urgent_review_bundle_count == urgent_count(inputs@),
        r.pending_shared_promotion_count == pending_count(inputs@),
        r.ocr_attention_count == ocr_total(r.bundles@),
        least_distinct(r.active_topics.deep_view(), topic_pool(inputs@), 12),
        least_distinct(r.recurring_mistake_signals.deep_view(), weakness_pool(inputs@), 12),
        least_distinct(r.teacher_style_signals.deep_view(), teacher_pool(r.bundles@), 12),
{
    let mut topics = TextSet::new();
    let mut weaknesses = TextSet::new();
    let mut styles = TextSet::new();
    let mut urgent: i64 = 0;
    let mut ocr: i64 = 0;
    let mut pending: i64 = 0;
    let mut bundles: Vec<AcademicVaultBundleDto> = Vec::new();
    let mut i: usize = 0;
    while i < inputs.len()
        invariant
            i <= inputs.len(),
            inputs@.len() <= i64::MAX,
            file_total(inputs@) <= i64::MAX,
            bundles@.len() == i,
            forall|k: int| 0 <= k < i ==> vault_bundle_spec(inputs@[k], #[trigger] bundles@[k]),
            urgent == urgent_count(inputs@.take(i as int)),
            pending == pending_count(inputs@.take(i as int)),
            ocr == ocr_total(bundles@),
            0 <= urgent <= i,
            0 <= pending <= i,
            0 <= ocr <= file_total(inputs@.take(i as int)),
            topics.holds(topic_pool(inputs@.take(i as int))),
            weaknesses.holds(weakness_pool(inputs@.take(i as int))),
            styles.holds(teacher_pool(bundles@)),
        decreases inputs.len() - i,
    {
        let b = &inputs[i];
        assert(inputs@.take(i + 1).drop_last() =~= inputs@.take(i as int));
        let ghost tp = topic_pool(inputs@.take(i as int));
        let ghost wp = weakness_pool(inputs@.take(i as int));
        let ghost sp = teacher_pool(bundles@);
        proof {
            lemma_file_total_prefix(inputs@, i + 1);
            lemma_file_total_prefix(inputs@, i as int);
        }
        let (dto, file_ocr, patterns) = build_vault_bundle(b);
        proof {
            lemma_ocr_count_bound(dto.files@);
        }
        if text_eq(dto.review_priority.as_str(), "high") || b.report.needs_confirmation {
            urgent = urgent + 1;
        }
        let pend = match &b.row.shared_promotion_status {
            Some(st) => text_eq(st.as_str(), "queued") || text_eq(st.as_str(), "approved"),
            None => false,
        };
        if pend {
            pending = pending + 1;
        }
        topics.add_all(&b.report.detected_topics, Ghost(tp));
        weaknesses.add_all(&b.report.weakness_signals, Ghost(wp));
        styles.add_all(&patterns, Ghost(sp));
        ocr = ocr + file_ocr;
        let ghost before = bundles@;
        bundles.push(dto);
        assert(bundles@.drop_last() =~= before);
        i = i + 1;
    }
    assert(inputs@.take(inputs.len() as int) =~= inputs@);
    PersonalAcademicVaultDto {
        student_id,
        student_name,
        generated_at: crate::clock::now_rfc3339(),
        active_topics: topics.least(12, Ghost(topic_pool(inputs@))),
        recurring_mistake_signals: weaknesses.least(12, Ghost(weakness_pool(inputs@))),
        teacher_style_signals: styles.least(12, Ghost(teacher_pool(bundles@))),
        urgent_review_bundle_count: urgent,
        ocr_attention_count: ocr,
        pending_shared_promotion_count: pending,
        bundles,
    }
}


/// The features every account of a type gets.
pub open spec fn base_features(account_type: Seq<char>) -> Seq<Seq<char>> {
    if account_type == "student"@ {
        seq!["learning_workspace"@, "personal_vault"@, "coach_mode"@, "dna_diagnostics"@, "memory_tools"@]
    } else if account_type == "parent"@ {
        seq!["oversight_dashboard"@, "readiness_views"@, "alerts"@, "weekly_reports"@]
    } else if account_type == "admin"@ {
        seq!["content_operating_system"@, "quality_governance"@, "curriculum_manager"@, "ingestion_pipeline"@, "publish_pipeline"@, "entitlement_manager"@]
    } else {
        Seq::empty()
    }
}

/// The features a paid tier adds for an account type.
pub open spec fn tier_features(account_type: Seq<char>, tier: Seq<char>) -> Seq<Seq<char>> {
    if account_type == "student"@ && tier == "elite"@ {
        seq!["advanced_prep"@, "harder_pathways"@, "deeper_diagnostics"@, "stronger_coach_behavior"@]
    } else if account_type == "parent"@ && (tier == "premium"@ || tier == "elite"@) {
        seq!["live_progress_sync"@, "strategy_updates"@, "exam_countdown_intelligence"@, "concierge_monitoring"@]
    } else if account_type == "student"@ && tier == "premium"@ {
        seq!["richer_reports"@]
    } else {
        Seq::empty()
    }
}

/// The features an account unlocks: those of its type, then those of its tier, each once.
pub fn feature_unlocks_for(account_type: &str, entitlement_tier: &str) -> (r: Vec<String>)
    ensures
        r.deep_view() == first_occurrences(base_features(account_type@) + tier_features(account_type@, entitlement_tier@)),
{
    let mut v: Vec<String> = Vec::new();
    if text_eq(account_type, "student") {
        v.push("learning_workspace".to_string());
        v.push("personal_vault".to_string());
        v.push("coach_mode".to_string());
        v.push("dna_diagnostics".to_string());
        v.push("memory_tools".to_string());
    } else if text_eq(account_type, "parent") {
        v.push("oversight_dashboard".to_string());
        v.push("readiness_views".to_string());
        v.push("alerts".to_string());
        v.push("weekly_reports".to_string());
    } else if text_eq(account_type, "admin") {
        v.push("content_operating_system".to_string());
        v.push("quality_governance".to_string());
        v.push("curriculum_manager".to_string());
        v.push("ingestion_pipeline".to_string());
        v.push("publish_pipeline".to_string());
        v.push("entitlement_manager".to_string());
    }
    assert(v.deep_view() =~= base_features(account_type@));
    let ghost b = v.deep_view();
    if text_eq(account_type, "student") && text_eq(entitlement_tier, "elite") {
        v.push("advanced_prep".to_string());
        v.push("harder_pathways".to_string());
        v.push("deeper_diagnostics".to_string());
        v.push("stronger_coach_behavior".to_string());
    } else if text_eq(account_type, "parent") && (text_eq(entitlement_tier, "premium") || text_eq(entitlement_tier, "elite")) {
        v.push("live_progress_sync".to_string());
        v.push("strategy_updates".to_string());
        v.push("exam_countdown_intelligence".to_string());
        v.push("concierge_monitoring".to_string());
    } else if text_eq(account_type, "student") && text_eq(entitlement_tier, "premium") {
        v.push("richer_reports".to_string());
    }
    assert(v.deep_view() =~= b + tier_features(account_type@, entitlement_tier@));
    dedup_strings(v)
}

/// An account row of the entitlement manager, with the students it is linked to.
#[derive(Clone, Debug)]
pub struct EntitlementAccountRow {
    pub account_id: i64,
    pub account_type: String,
    pub display_name: String,
    pub entitlement_tier: String,
    pub status: String,
    pub last_active_at: Option<String>,
    pub linked_student_ids: Vec<i64>,
}

/// A change of an account's tier or status.
#[derive(Clone, Debug)]
pub struct EntitlementAuditEntryDto {
    pub id: i64,
    pub account_id: i64,
    pub changed_by_account_id: Option<i64>,
    pub previous_tier: String,
    pub new_tier: String,
    pub previous_status: String,
    pub new_status: String,
    pub reason: Option<String>,
    pub created_at: String,
}

/// The entitlement manager: tier and activity counts, the managed accounts and the
/// recent audit trail.
#[derive(Clone, Debug)]
pub struct EntitlementManagerSnapshotDto {
    pub generated_at: String,
    pub premium_count: i64,
    pub elite_count: i64,
    pub inactive_count: i64,
    pub accounts: Vec<ManagedEntitlementAccountDto>,
    pub audit_log: Vec<EntitlementAuditEntryDto>,
}

/// Linked students are listed for parent accounts only.
pub open spec fn managed_account_spec(row: EntitlementAccountRow, d: ManagedEntitlementAccountDto) -> bool {
    &&& d.account_id == row.account_id
    &&& d.display_name@ == row.display_name@
    &&& d.account_type@ == row.account_type@
    &&& d.entitlement_tier@ == row.entitlement_tier@
    &&& d.status@ == row.status@
    &&& opt_view(d.last_active_at) == opt_view(row.last_active_at)
    &&& d.linked_student_ids@ == (if row.account_type@ == "parent"@ { row.linked_student_ids@ } else { Seq::<i64>::empty() })
    &&& d.feature_unlocks.deep_view() == first_occurrences(base_features(row.account_type@) + tier_features(row.account_type@, row.entitlement_tier@))
}

/// An account as the entitlement manager lists it.
pub fn managed_account(row: &EntitlementAccountRow) -> (d: ManagedEntitlementAccountDto)
    ensures
        managed_account_spec(*row, d),
{
    let linked = if text_eq(row.account_type.as_str(), "parent") { row.linked_student_ids.clone() } else { Vec::new() };
    ManagedEntitlementAccountDto {
        account_id: row.account_id,
        display_name: row.display_name.clone(),
        account_type: row.account_type.clone(),
        entitlement_tier: row.entitlement_tier.clone(),
        status: row.status.clone(),
        last_active_at: copy_opt(&row.last_active_at),
        linked_student_ids: linked,
        feature_unlocks: feature_unlocks_for(row.account_type.as_str(), row.entitlement_tier.as_str()),
    }
}

pub open spec fn tier_count(rows: Seq<EntitlementAccountRow>, tier: Seq<char>) -> int
    decreases rows.len(),
{
    if rows.len() == 0 { 0 } else { tier_count(rows.drop_last(), tier) + if rows.last().entitlement_tier@ == tier { 1int } else { 0int } }
}

pub open spec fn inactive_count_of(rows: Seq<EntitlementAccountRow>) -> int
    decreases rows.len(),
{
    if rows.len() == 0 { 0 } else { inactive_count_of(rows.drop_last()) + if rows.last().status@ != "active"@ { 1int } else { 0int } }
}

/// Counts premium, elite and non-active accounts and lists each account with its
/// feature unlocks.
pub fn build_entitlement_manager_snapshot(
    rows: &Vec<EntitlementAccountRow>,
    audit_log: Vec<EntitlementAuditEntryDto>,
) -> (r: EntitlementManagerSnapshotDto)
    requires
        rows@.len() <= i64::MAX,
    ensures
        crate::clock::utc_timestamp_text(r.generated_at@),
        r.premium_count == tier_count(rows@, "premium"@),
        r.elite_count == tier_count(rows@, "elite"@),
        r.inactive_count == inactive_count_of(rows@),
        r.accounts@.len() == rows@.len(),
        forall|i: int| 0 <= i < rows@.len() ==> managed_account_spec(rows@[i], #[trigger] r.accounts@[i]),
        r.audit_log@ == audit_log@,
{
    let mut premium: i64 = 0;
    let mut elite: i64 = 0;
    let mut inactive: i64 = 0;
    let mut accounts: Vec<ManagedEntitlementAccountDto> = Vec::new();
    let mut i: usize = 0;
    while i < rows.len()
        invariant
            i <= rows.len(),
            rows@.len() <= i64::MAX,
            premium == tier_count(rows@.take(i as int), "premium"@),
            elite == tier_count(rows@.take(i as int), "elite"@),
            inactive == inactive_count_of(rows@.take(i as int)),
            0 <= premium <= i,
            0 <= elite <= i,
            0 <= inactive <= i,
            accounts@.len() == i,
            forall|k: int| 0 <= k < i ==> managed_account_spec(rows@[k], #[trigger] accounts@[k]),
        decreases rows.len() - i,
    {
        let row = &rows[i];
        assert(rows@.take(i + 1).drop_last() =~= rows@.take(i as int));
        if text_eq(row.entitlement_tier.as_str(), "premium") {
            premium = premium + 1;
        }
        if text_eq(row.entitlement_tier.as_str(), "elite") {
            elite = elite + 1;
        }
        if !text_eq(row.status.as_str(), "active") {
            inactive = inactive + 1;
        }
        accounts.push(managed_account(row));
        i = i + 1;
    }
    assert(rows@.take(rows.len() as int) =~= rows@);
    EntitlementManagerSnapshotDto {
        generated_at: crate::clock::now_rfc3339(),
        premium_count: premium,
        elite_count: elite,
        inactive_count: inactive,
        accounts,
        audit_log,
    }
}


/// The mode the AReal companion speaks in.
pub open spec fn areal_mode(
    tier: Seq<char>,
    band: Seq<char>,
    pending_review_count: i64,
    due_memory_count: i64,
    has_recent_uploads: bool,
    next_route_key: Seq<char>,
) -> Seq<char> {
    if has_recent_uploads && has_part(next_route_key, "review"@) {
        "upload_interpreter"@
    } else if pending_review_count > 0 || due_memory_count > 0 || band == "At Risk"@ || band == "Not Ready"@ {
        "repair_and_stabilize"@
    } else if tier == "elite"@ && (has_part(next_route_key, "exam"@) || has_part(next_route_key, "pressure"@)) {
        "elite_push"@
    } else {
        "steady_progress"@
    }
}

/// Uploads waiting for review make the companion interpret them; open reviews, due
/// memory or fragile readiness make it repair; elite learners heading for exam or
/// pressure work get pushed; otherwise progress is steady.
pub fn areal_mode_for(
    entitlement_tier: &str,
    readiness_band: &str,
    pending_review_count: i64,
    due_memory_count: i64,
    has_recent_uploads: bool,
    next_route_key: &str,
) -> (r: String)
    ensures
        r@ == areal_mode(entitlement_tier@, readiness_band@, pending_review_count, due_memory_count, has_recent_uploads, next_route_key@),
{
    if has_recent_uploads && contains_text(next_route_key, "review") {
        return "upload_interpreter".to_string();
    }
    if pending_review_count > 0 || due_memory_count > 0 || text_eq(readiness_band, "At Risk") || text_eq(readiness_band, "Not Ready") {
        return "repair_and_stabilize".to_string();
    }
    if text_eq(entitlement_tier, "elite") && (contains_text(next_route_key, "exam") || contains_text(next_route_key, "pressure")) {
        return "elite_push".to_string();
    }
    "steady_progress".to_string()
}

/// The sentences of the companion's narrative summary.
pub open spec fn areal_summary_parts(band: Seq<char>, next_summary: Seq<char>, first: Option<AcademicVaultBundleDto>) -> Seq<Seq<char>> {
    let head = seq!["Your current readiness band is "@ + band + ", so the coach is keeping the next move focused."@];
    let middle = match first {
        Some(b) => {
            let topics = b.detected_topics.deep_view();
            let t = if topics.len() > 0 {
                seq!["Your latest uploaded work is centered on "@ + joined(topics.take(if topics.len() < 2 { topics.len() as int } else { 2 }), ", "@) + "."@]
            } else { Seq::empty() };
            let p = if b.summary_points@.len() > 0 { seq![b.summary_points@[0]@] } else { Seq::empty() };
            t + p
        },
        None => Seq::empty(),
    };
    head + middle + seq![next_summary]
}

/// The companion's summary: the next action's summary alone without narrative, and
/// otherwise readiness, the latest upload's topics and first point, and the next
/// action, as sentences.
pub fn build_areal_summary(
    readiness_band: &str,
    next_action_summary: &str,
    first_bundle: Option<&AcademicVaultBundleDto>,
    narrative_enabled: bool,
) -> (r: String)
    ensures
        !narrative_enabled ==> r@ == next_action_summary@,
        narrative_enabled ==> r@ == joined(areal_summary_parts(readiness_band@, next_action_summary@, match first_bundle {
            Some(b) => Some(*b),
            None => None,
        }), " "@),
{
    if !narrative_enabled {
        return next_action_summary.to_string();
    }
    let mut parts: Vec<String> = Vec::new();
    parts.push("Your current readiness band is ".to_string().concat(readiness_band).concat(
        ", so the coach is keeping the next move focused.",
    ));
    let ghost p0 = parts.deep_view();
    match first_bundle {
        Some(b) => {
            if b.detected_topics.len() > 0 {
                let two = first_texts(&b.detected_topics, 2);
                parts.push("Your latest uploaded work is centered on ".to_string().concat(join_texts(&two, ", ").as_str()).concat("."));
            }
            if b.summary_points.len() > 0 {
                parts.push(b.summary_points[0].clone());
            }
        },
        None => {},
    }
    parts.push(next_action_summary.to_string());
    assert(parts.deep_view() =~= areal_summary_parts(readiness_band@, next_action_summary@, match first_bundle {
        Some(b) => Some(*b),
        None => None,
    }));
    join_texts(&parts, " ")
}

/// The companion's stored voice settings.
#[derive(Clone, Debug)]
pub struct ARealProfileRow {
    pub tone_style: String,
    pub motivation_style: String,
    pub urgency_style: String,
    pub explanation_style: String,
    pub narrative_enabled: bool,
}

pub open spec fn or_existing(given: Option<String>, existing: String) -> Seq<char> {
    match given {
        Some(v) => v@,
        None => existing@,
    }
}

/// Saving a profile keeps every setting the input leaves out.
pub fn save_areal_profile(input: &ARealProfileInputDto, existing: &ARealProfileRow) -> (r: ARealProfileRow)
    ensures
        r.tone_style@ == or_existing(input.tone_style, existing.tone_style),
        r.motivation_style@ == or_existing(input.motivation_style, existing.motivation_style),
        r.urgency_style@ == or_existing(input.urgency_style, existing.urgency_style),
        r.explanation_style@ == or_existing(input.explanation_style, existing.explanation_style),
        r.narrative_enabled == (match input.narrative_enabled {
            Some(b) => b,
            None => existing.narrative_enabled,
        }),
{
    let pick = |given: &Option<String>, old: &String| -> (v: String)
        ensures
            v@ == or_existing(*given, *old),
        {
            match given {
                Some(g) => g.clone(),
                None => old.clone(),
            }
        };
    ARealProfileRow {
        tone_style: pick(&input.tone_style, &existing.tone_style),
        motivation_style: pick(&input.motivation_style, &existing.motivation_style),
        urgency_style: pick(&input.urgency_style, &existing.urgency_style),
        explanation_style: pick(&input.explanation_style, &existing.explanation_style),
        narrative_enabled: match input.narrative_enabled {
            Some(b) => b,
            None => existing.narrative_enabled,
        },
    }
}

/// What the companion records and shows for this visit.
#[derive(Clone, Debug)]
pub struct ARealGuidancePlan {
    pub current_mode: String,
    pub headline: String,
    pub summary: String,
}

/// The learner state the companion reads.
#[derive(Clone, Debug)]
pub struct ARealLearnerState {
    pub student_id: i64,
    pub student_name: String,
    pub entitlement_tier: String,
    pub readiness_band: String,
    pub pending_review_count: i64,
    pub due_memory_count: i64,
    pub next_action_title: String,
    pub next_action_summary: String,
    pub next_route_key: String,
}

pub open spec fn first_bundle_of(v: PersonalAcademicVaultDto) -> Option<AcademicVaultBundleDto> {
    if v.bundles@.len() > 0 { Some(v.bundles@[0]) } else { None }
}

/// Decides the companion's mode, headline and summary for a visit.
pub fn plan_areal_guidance(
    learner: &ARealLearnerState,
    vault: &PersonalAcademicVaultDto,
    profile: &ARealProfileRow,
) -> (r: ARealGuidancePlan)
    ensures
        r.current_mode@ == areal_mode(learner.entitlement_tier@, learner.readiness_band@, learner.pending_review_count,
            learner.due_memory_count, vault.bundles@.len() > 0, learner.next_route_key@),
        r.headline@ == (if r.current_mode@ == "upload_interpreter"@ && vault.bundles@.len() > 0 {
            "I turned your recent schoolwork into a plan"@
        } else {
            learner.next_action_title@
        }),
        !profile.narrative_enabled ==> r.summary@ == learner.next_action_summary@,
        profile.narrative_enabled ==> r.summary@ == joined(areal_summary_parts(learner.readiness_band@,
            learner.next_action_summary@, first_bundle_of(*vault)), " "@),
{
    let has_uploads = vault.bundles.len() > 0;
    let mode = areal_mode_for(
        learner.entitlement_tier.as_str(),
        learner.readiness_band.as_str(),
        learner.pending_review_count,
        learner.due_memory_count,
        has_uploads,
        learner.next_route_key.as_str(),
    );
    let headline = if text_eq(mode.as_str(), "upload_interpreter") && has_uploads {
        "I turned your recent schoolwork into a plan".to_string()
    } else {
        learner.next_action_title.clone()
    };
    let first: Option<&AcademicVaultBundleDto> = if has_uploads { Some(&vault.bundles[0]) } else { None };
    let summary = build_areal_summary(
        learner.readiness_band.as_str(),
        learner.next_action_summary.as_str(),
        first,
        profile.narrative_enabled,
    );
    ARealGuidancePlan { current_mode: mode, headline, summary }
}

pub open spec fn take_up_to(s: Seq<Seq<char>>, n: int) -> Seq<Seq<char>> {
    s.take(if s.len() < n { s.len() as int } else { n })
}

pub open spec fn areal_signals(learner: ARealLearnerState, vault: PersonalAcademicVaultDto) -> Seq<Seq<char>> {
    let a = seq!["readiness:"@ + learner.readiness_band@];
    let b = if learner.pending_review_count > 0 { seq!["pending_review:"@ + decimal_text(learner.pending_review_count as int)] } else { Seq::empty() };
    let c = if learner.due_memory_count > 0 { seq!["memory_due:"@ + decimal_text(learner.due_memory_count as int)] } else { Seq::empty() };
    let d = if vault.recurring_mistake_signals@.len() > 0 { seq!["recurring:"@ + vault.recurring_mistake_signals@[0]@] } else { Seq::empty() };
    a + b + c + d
}

pub open spec fn areal_upload_context(vault: PersonalAcademicVaultDto) -> Seq<Seq<char>> {
    match first_bundle_of(vault) {
        Some(b) => take_up_to(b.summary_points.deep_view(), 2) + take_up_to(b.detected_topics.deep_view(), 2),
        None => Seq::empty(),
    }
}

pub open spec fn areal_actions(learner: ARealLearnerState, vault: PersonalAcademicVaultDto) -> Seq<Seq<char>> {
    let rest = match first_bundle_of(vault) {
        Some(b) => take_up_to(b.recommended_actions.deep_view(), 3),
        None => Seq::empty(),
    };
    first_occurrences(seq![learner.next_route_key@] + rest)
}

/// The companion surface: the profile's voice, the planned guidance, the learner's
/// active signals, context from the latest upload, and the next route followed by the
/// upload's first recommended actions, each once.
pub fn get_areal_surface(
    learner: &ARealLearnerState,
    profile: &ARealProfileRow,
    plan: ARealGuidancePlan,
    vault: &PersonalAcademicVaultDto,
    recent_guidance: Vec<ARealGuidanceEventDto>,
) -> (r: ARealSurfaceDto)
    ensures
        crate::clock::utc_timestamp_text(r.generated_at@),
        r.student_id == learner.student_id,
        r.student_name@ == learner.student_name@,
        r.current_mode@ == plan.current_mode@,
        r.tone_style@ == profile.tone_style@,
        r.motivation_style@ == profile.motivation_style@,
        r.urgency_style@ == profile.urgency_style@,
        r.explanation_style@ == profile.explanation_style@,
        r.headline@ == plan.headline@,
        r.summary@ == plan.summary@,
        r.next_route_key@ == learner.next_route_key@,
        r.active_signals.deep_view() == areal_signals(*learner, *vault),
        r.upload_context.deep_view() == areal_upload_context(*vault),
        r.recommended_actions.deep_view() == areal_actions(*learner, *vault),
        r.recommended_actions@.len() > 0,
        r.recent_guidance@ == recent_guidance@,
{
    let mut signals: Vec<String> = Vec::new();
    signals.push("readiness:".to_string().concat(learner.readiness_band.as_str()));
    if learner.pending_review_count > 0 {
        signals.push("pending_review:".to_string().concat(i64_text(learner.pending_review_count).as_str()));
    }
    if learner.due_memory_count > 0 {
        signals.push("memory_due:".to_string().concat(i64_text(learner.due_memory_count).as_str()));
    }
    if vault.recurring_mistake_signals.len() > 0 {
        signals.push("recurring:".to_string().concat(vault.recurring_mistake_signals[0].as_str()));
    }
    assert(signals.deep_view() =~= areal_signals(*learner, *vault));
    let mut context: Vec<String> = Vec::new();
    let mut candidates: Vec<String> = Vec::new();
    candidates.push(learner.next_route_key.clone());
    if vault.bundles.len() > 0 {
        let b = &vault.bundles[0];
        let mut points = first_texts(&b.summary_points, 2);
        let mut topics = first_texts(&b.detected_topics, 2);
        context.append(&mut points);
        context.append(&mut topics);
        let mut acts = first_texts(&b.recommended_actions, 3);
        candidates.append(&mut acts);
    }
    assert(context.deep_view() =~= areal_upload_context(*vault));
    assert(candidates.deep_view() =~= seq![learner.next_route_key@] + match first_bundle_of(*vault) {
        Some(b) => take_up_to(b.recommended_actions.deep_view(), 3),
        None => Seq::empty(),
    });
    let ghost cands = candidates.deep_view();
    let actions = dedup_strings(candidates);
    proof {
        lemma_first_occurrences_nonempty(cands);
    }
    ARealSurfaceDto {
        student_id: learner.student_id,
        student_name: learner.student_name.clone(),
        generated_at: crate::clock::now_rfc3339(),
        current_mode: plan.current_mode,
        tone_style: profile.tone_style.clone(),
        motivation_style: profile.motivation_style.clone(),
        urgency_style: profile.urgency_style.clone(),
        explanation_style: profile.explanation_style.clone(),
        headline: plan.headline,
        summary: plan.summary,
        next_route_key: learner.next_route_key.clone(),
        active_signals: signals,
        upload_context: context,
        recommended_actions: actions,
        recent_guidance,
    }
}

/// A non-empty list keeps at least one text after deduplication.
pub proof fn lemma_first_occurrences_nonempty(s: Seq<Seq<char>>)
    ensures
        s.len() > 0 ==> first_occurrences(s).len() > 0,
    decreases s.len(),
{
    if s.len() > 1 {
        lemma_first_occurrences_nonempty(s.drop_last());
    }
}


pub open spec fn has_action_key(items: Seq<ActionView>, key: Seq<char>) -> bool {
    exists|i: int| 0 <= i < items.len() && (#[trigger] items[i]).recommendation_key == key
}

/// Adds a recommendation unless one with the same key is already listed.
pub fn push_action_recommendation(items: &mut Vec<ActionRecommendationDto>, recommendation: ActionRecommendationDto)
    ensures
        actions_view(final(items)@) == (if has_action_key(actions_view(old(items)@), recommendation.recommendation_key@) {
            actions_view(old(items)@)
        } else {
            actions_view(old(items)@).push(recommendation@)
        }),
{
    let mut i: usize = 0;
    while i < items.len()
        invariant
            i <= items.len(),
            forall|k: int| 0 <= k < i ==> (#[trigger] actions_view(items@)[k]).recommendation_key != recommendation.recommendation_key@,
        decreases items.len() - i,
    {
        if items[i].recommendation_key == recommendation.recommendation_key {
            assert(actions_view(items@)[i as int].recommendation_key == recommendation.recommendation_key@);
            return;
        }
        i = i + 1;
    }
    let ghost old = actions_view(items@);
    items.push(recommendation);
    assert(actions_view(items@) =~= old.push(recommendation@));
}

pub open spec fn review_source_queue_action() -> ActionView {
    ActionView {
        recommendation_key: "review_source_queue"@,
        audience: "admin"@,
        label: "Clear source review queue"@,
        summary: "Content ingestion is ahead of governance, so unresolved review work should be cleared before more publishing."@,
        route_key: "content_foundry"@,
        urgency: "high"@,
        rationale: "idea38 requires super-admin approval and refinement before trust promotion."@,
    }
}

pub open spec fn triage_ocr_action() -> ActionView {
    ActionView {
        recommendation_key: "triage_ocr_queue"@,
        audience: "admin"@,
        label: "Triage OCR recovery"@,
        summary: "Personal uploads still need OCR or layout attention before they can cleanly feed either the student model or the shared corpus."@,
        route_key: "personal_vault_review"@,
        urgency: "high"@,
        rationale: "idea38 treats OCR and layout recovery as first-class operating objects."@,
    }
}

pub open spec fn review_promotions_action() -> ActionView {
    ActionView {
        recommendation_key: "review_shared_promotions"@,
        audience: "admin"@,
        label: "Review personal-to-shared promotions"@,
        summary: "Student materials are waiting for abstraction and approval before entering the shared content operating system."@,
        route_key: "content_governance"@,
        urgency: "medium"@,
        rationale: "idea38 explicitly keeps personal academic vault data separate from the shared corpus until reviewed."@,
    }
}

pub open spec fn audit_entitlements_action() -> ActionView {
    ActionView {
        recommendation_key: "audit_entitlements"@,
        audience: "admin"@,
        label: "Audit access policy changes"@,
        summary: "There are non-active or recently changed accounts, so the control tower should verify premium and elite policies are intentional."@,
        route_key: "entitlement_manager"@,
        urgency: "medium"@,
        rationale: "idea38 defines premium and elite as policy layers applied through the same shared system."@,
    }
}

pub open spec fn push_unique(items: Seq<ActionView>, a: ActionView) -> Seq<ActionView> {
    if has_action_key(items, a.recommendation_key) { items } else { items.push(a) }
}

pub open spec fn any_unresolved_source(objects: Seq<SourceGovernanceObjectDto>) -> bool {
    exists|i: int| 0 <= i < objects.len() && (#[trigger] objects[i]).unresolved_review_count > 0
}

pub open spec fn tower_actions_spec(
    base: Seq<ActionView>,
    sources: Seq<SourceGovernanceObjectDto>,
    ocr_objects: int,
    pending_promotions: int,
    inactive_accounts: i64,
) -> Seq<ActionView> {
    let a1 = if any_unresolved_source(sources) { push_unique(base, review_source_queue_action()) } else { base };
    let a2 = if ocr_objects > 0 { push_unique(a1, triage_ocr_action()) } else { a1 };
    let a3 = if pending_promotions > 0 { push_unique(a2, review_promotions_action()) } else { a2 };
    if inactive_accounts > 0 { push_unique(a3, audit_entitlements_action()) } else { a3 }
}

/// The control tower's follow-ups: the content-health actions, then (each once by key)
/// clearing the source review queue, triaging OCR recovery, reviewing shared
/// promotions and auditing entitlements, as their signals call for.
pub fn build_control_tower_actions(
    content_actions: &Vec<ActionRecommendationDto>,
    sources: &Vec<SourceGovernanceObjectDto>,
    ocr_objects: usize,
    pending_promotions: usize,
    inactive_accounts: i64,
) -> (r: Vec<ActionRecommendationDto>)
    ensures
        actions_view(r@) == tower_actions_spec(actions_view(content_actions@), sources@, ocr_objects as int,
            pending_promotions as int, inactive_accounts),
{
    let mut actions = copy_actions(content_actions);
    let mut unresolved = false;
    let mut i: usize = 0;
    while i < sources.len()
        invariant
            i <= sources.len(),
            !unresolved ==> forall|k: int| 0 <= k < i ==> (#[trigger] sources@[k]).unresolved_review_count <= 0,
            unresolved ==> any_unresolved_source(sources@),
        decreases sources.len() - i,
    {
        if sources[i].unresolved_review_count > 0 {
            unresolved = true;
        }
        i = i + 1;
    }
    if unresolved {
        push_action_recommendation(&mut actions, action(
            "review_source_queue".to_string(),
            "admin",
            "Clear source review queue".to_string(),
            "Content ingestion is ahead of governance, so unresolved review work should be cleared before more publishing.".to_string(),
            "content_foundry".to_string(),
            "high",
            "idea38 requires super-admin approval and refinement before trust promotion.".to_string(),
        ));
    }
    if ocr_objects > 0 {
        push_action_recommendation(&mut actions, action(
            "triage_ocr_queue".to_string(),
            "admin",
            "Triage OCR recovery".to_string(),
            "Personal uploads still need OCR or layout attention before they can cleanly feed either the student model or the shared corpus.".to_string(),
            "personal_vault_review".to_string(),
            "high",
            "idea38 treats OCR and layout recovery as first-class operating objects.".to_string(),
        ));
    }
    if pending_promotions > 0 {
        push_action_recommendation(&mut actions, action(
            "review_shared_promotions".to_string(),
            "admin",
            "Review personal-to-shared promotions".to_string(),
            "Student materials are waiting for abstraction and approval before entering the shared content operating system.".to_string(),
            "content_governance".to_string(),
            "medium",
            "idea38 explicitly keeps personal academic vault data separate from the shared corpus until reviewed.".to_string(),
        ));
    }
    if inactive_accounts > 0 {
        push_action_recommendation(&mut actions, action(
            "audit_entitlements".to_string(),
            "admin",
            "Audit access policy changes".to_string(),
            "There are non-active or recently changed accounts, so the control tower should verify premium and elite policies are intentional.".to_string(),
            "entitlement_manager".to_string(),
            "medium",
            "idea38 defines premium and elite as policy layers applied through the same shared system.".to_string(),
        ));
    }
    actions
}

/// A file-reconstruction insight as the OCR recovery queue reads it.
#[derive(Clone, Debug)]
pub struct OcrInsightRow {
    pub bundle_id: i64,
    pub student_id: i64,
    pub student_name: String,
    pub file_id: Option<i64>,
    pub file_name: Option<String>,
    pub document_role: Option<String>,
    pub ocr_status: Option<String>,
    pub layout_status: Option<String>,
    pub layout_kind: Option<String>,
    pub review_priority: Option<String>,
    pub review_reasons: Vec<String>,
}

pub open spec fn row_needs_attention(r: OcrInsightRow) -> bool {
    needs_ocr_attention(status_or_unknown(r.ocr_status), r.review_reasons.deep_view())
}

/// Scanning the rows newest first: rows without a file id are passed over, each
/// (bundle, file) pair is considered once, files that need attention are taken, and
/// the scan stops once `cap` are taken. Gives the pairs seen and the rows taken.
pub open spec fn ocr_scan(rows: Seq<OcrInsightRow>, cap: int) -> (Set<(i64, i64)>, Seq<OcrInsightRow>)
    decreases rows.len(),
{
    if rows.len() == 0 {
        (Set::empty(), Seq::empty())
    } else {
        let (seen, taken) = ocr_scan(rows.drop_last(), cap);
        let r = rows.last();
        if taken.len() >= cap {
            (seen, taken)
        } else {
            match r.file_id {
                None => (seen, taken),
                Some(f) => if seen.contains((r.bundle_id, f)) {
                    (seen, taken)
                } else if row_needs_attention(r) {
                    (seen.insert((r.bundle_id, f)), taken.push(r))
                } else {
                    (seen.insert((r.bundle_id, f)), taken)
                },
            }
        }
    }
}

/// The queue entry of a taken row, with defaults where the insight is silent.
pub open spec fn ocr_object_spec(r: OcrInsightRow, d: OcrRecoveryObjectDto) -> bool {
    &&& d.bundle_id == r.bundle_id
    &&& d.student_id == r.student_id
    &&& d.student_name@ == r.student_name@
    &&& r.file_id == Some(d.file_id)
    &&& d.file_name@ == status_or_unknown(r.file_name)
    &&& opt_view(d.document_role) == opt_view(r.document_role)
    &&& d.ocr_status@ == status_or_unknown(r.ocr_status)
    &&& d.layout_status@ == status_or_unknown(r.layout_status)
    &&& opt_view(d.layout_kind) == opt_view(r.layout_kind)
    &&& d.review_priority@ == (match r.review_priority { Some(p) => p@, None => "medium"@ })
    &&& d.review_reasons.deep_view() == r.review_reasons.deep_view()
}

/// Whether the pair was seen already.
pub fn seen_pair(seen: &Vec<(i64, i64)>, pair: (i64, i64)) -> (r: bool)
    ensures
        r == seen@.contains(pair),
{
    let mut i: usize = 0;
    while i < seen.len()
        invariant
            i <= seen.len(),
            forall|k: int| 0 <= k < i ==> seen@[k] != pair,
        decreases seen.len() - i,
    {
        if seen[i].0 == pair.0 && seen[i].1 == pair.1 {
            assert(seen@[i as int] == pair);
            return true;
        }
        i = i + 1;
    }
    false
}

/// The OCR recovery queue: at most `max(limit, 1)` files that still need OCR or layout
/// work, each (bundle, file) pair once.
pub fn select_ocr_recovery_objects(rows: &Vec<OcrInsightRow>, limit: usize) -> (r: Vec<OcrRecoveryObjectDto>)
    ensures
        r@.len() == ocr_scan(rows@, if limit > 1 { limit as int } else { 1 }).1.len(),
        forall|i: int| 0 <= i < r@.len() ==> ocr_object_spec(ocr_scan(rows@, if limit > 1 { limit as int } else { 1 }).1[i], #[trigger] r@[i]),
{
    let cap: usize = if limit > 1 { limit } else { 1 };
    let ghost gcap = cap as int;
    let mut seen: Vec<(i64, i64)> = Vec::new();
    let mut out: Vec<OcrRecoveryObjectDto> = Vec::new();
    let mut i: usize = 0;
    while i < rows.len()
        invariant
            i <= rows.len(),
            gcap == cap as int,
            gcap == (if limit > 1 { limit as int } else { 1 }),
            seen@.to_set() == ocr_scan(rows@.take(i as int), gcap).0,
            out@.len() == ocr_scan(rows@.take(i as int), gcap).1.len(),
            forall|k: int| 0 <= k < out@.len() ==> ocr_object_spec(ocr_scan(rows@.take(i as int), gcap).1[k], #[trigger] out@[k]),
            out@.len() <= cap,
        decreases rows.len() - i,
    {
        let ghost prev = ocr_scan(rows@.take(i as int), gcap);
        assert(rows@.take(i + 1).drop_last() =~= rows@.take(i as int));
        assert(rows@.take(i + 1).last() == rows@[i as int]);
        if out.len() >= cap {
            return out_after_stop(out, rows, i, cap, Ghost(gcap));
        }
        let r = &rows[i];
        match r.file_id {
            None => {},
            Some(f) => {
                if !seen_pair(&seen, (r.bundle_id, f)) {
                    let ghost s0 = seen@;
                    seen.push((r.bundle_id, f));
                    proof {
                        s0.lemma_push_to_set_commute((r.bundle_id, f));
                    }
                    assert(seen@.to_set() =~= s0.to_set().insert((r.bundle_id, f)));
                    let reasons = copy_texts(&r.review_reasons);
                    let ocr_status = status_text(&r.ocr_status);
                    if ocr_attention(ocr_status.as_str(), &reasons) {
                        let item = OcrRecoveryObjectDto {
                            bundle_id: r.bundle_id,
                            student_id: r.student_id,
                            student_name: r.student_name.clone(),
                            file_id: f,
                            file_name: status_text(&r.file_name),
                            document_role: copy_opt(&r.document_role),
                            ocr_status,
                            layout_status: status_text(&r.layout_status),
                            layout_kind: copy_opt(&r.layout_kind),
                            review_priority: match &r.review_priority {
                                Some(p) => p.clone(),
                                None => "medium".to_string(),
                            },
                            review_reasons: reasons,
                        };
                        let ghost o0 = out@;
                        out.push(item);
                        assert(out@.drop_last() =~= o0);
                    }
                } else {
                    assert(seen@.to_set().contains((r.bundle_id, f)));
                }
            },
        }
        i = i + 1;
    }
    assert(rows@.take(rows.len() as int) =~= rows@);
    out
}

/// Once the scan has its limit of objects, later rows change nothing.
pub proof fn lemma_ocr_scan_stops(rows: Seq<OcrInsightRow>, cap: int, i: int)
    requires
        0 <= i <= rows.len(),
        ocr_scan(rows.take(i), cap).1.len() >= cap,
    ensures
        ocr_scan(rows, cap).1 == ocr_scan(rows.take(i), cap).1,
    decreases rows.len() - i,
{
    if i < rows.len() {
        assert(rows.take(i + 1).drop_last() =~= rows.take(i));
        lemma_ocr_scan_stops(rows, cap, i + 1);
    } else {
        assert(rows.take(i) =~= rows);
    }
}

fn out_after_stop(
    out: Vec<OcrRecoveryObjectDto>,
    rows: &Vec<OcrInsightRow>,
    i: usize,
    cap: usize,
    Ghost(gcap): Ghost<int>,
) -> (r: Vec<OcrRecoveryObjectDto>)
    requires
        i <= rows@.len(),
        gcap == cap as int,
        out@.len() >= cap,
        out@.len() == ocr_scan(rows@.take(i as int), gcap).1.len(),
        forall|k: int| 0 <= k < out@.len() ==> ocr_object_spec(ocr_scan(rows@.take(i as int), gcap).1[k], #[trigger] out@[k]),
    ensures
        r@.len() == ocr_scan(rows@, gcap).1.len(),
        forall|k: int| 0 <= k < r@.len() ==> ocr_object_spec(ocr_scan(rows@, gcap).1[k], #[trigger] r@[k]),
{
    proof {
        lemma_ocr_scan_stops(rows@, gcap, i as int);
    }
    out
}

/// The recommendation keys of a list are pairwise distinct.
pub open spec fn action_keys_distinct(items: Seq<ActionView>) -> bool {
    forall|i: int, j: int| 0 <= i < j < items.len() ==> (#[trigger] items[i]).recommendation_key != (#[trigger] items[j]).recommendation_key
}

/// Adding recommendations one at a time never lists a key twice.
pub proof fn adding_recommendations_keeps_keys_distinct(items: Seq<ActionView>, recommendation: ActionView)
    requires
        action_keys_distinct(items),
    ensures
        action_keys_distinct(if has_action_key(items, recommendation.recommendation_key) { items } else { items.push(recommendation) }),
{
    if !has_action_key(items, recommendation.recommendation_key) {
        let n = items.push(recommendation);
        assert forall|i: int, j: int| 0 <= i < j < n.len() implies (#[trigger] n[i]).recommendation_key != (#[trigger] n[j]).recommendation_key by {
            if j == items.len() {
                assert(n[i] == items[i]);
                if items[i].recommendation_key == recommendation.recommendation_key {
                    assert(has_action_key(items, recommendation.recommendation_key));
                }
            } else {
                assert(n[i] == items[i] && n[j] == items[j]);
            }
        }
    }
}

/// The features an account unlocks are listed once each, and are exactly those of its
/// type and tier.
pub proof fn feature_unlocks_are_listed_once(account_type: Seq<char>, entitlement_tier: Seq<char>)
    ensures
        forall|x: Seq<char>| #[trigger] first_occurrences(base_features(account_type) + tier_features(account_type, entitlement_tier)).contains(x)
            <==> (base_features(account_type) + tier_features(account_type, entitlement_tier)).contains(x),
        forall|i: int, j: int| 0 <= i < j < first_occurrences(base_features(account_type) + tier_features(account_type, entitlement_tier)).len()
            ==> #[trigger] first_occurrences(base_features(account_type) + tier_features(account_type, entitlement_tier))[i]
                != #[trigger] first_occurrences(base_features(account_type) + tier_features(account_type, entitlement_tier))[j],
{
    crate::text::dedup_keeps_each_text_once(base_features(account_type) + tier_features(account_type, entitlement_tier));
}

/// The companion interprets uploads that are headed for review; otherwise any open
/// review, any due memory item, or an at-risk or not-ready band puts it in repair mode;
/// elite learners heading for exam or pressure work are pushed; everyone else progresses
/// steadily. Every outcome is one of these four modes.
pub proof fn areal_mode_puts_open_work_first(
    tier: Seq<char>,
    band: Seq<char>,
    pending_review_count: i64,
    due_memory_count: i64,
    has_recent_uploads: bool,
    next_route_key: Seq<char>,
)
    ensures
        has_recent_uploads && has_part(next_route_key, "review"@) ==> areal_mode(
            tier, band, pending_review_count, due_memory_count, has_recent_uploads, next_route_key,
        ) == "upload_interpreter"@,
        !(has_recent_uploads && has_part(next_route_key, "review"@)) && pending_review_count > 0 ==> areal_mode(
            tier, band, pending_review_count, due_memory_count, has_recent_uploads, next_route_key,
        ) == "repair_and_stabilize"@,
        !(has_recent_uploads && has_part(next_route_key, "review"@)) && due_memory_count > 0 ==> areal_mode(
            tier, band, pending_review_count, due_memory_count, has_recent_uploads, next_route_key,
        ) == "repair_and_stabilize"@,
        !(has_recent_uploads && has_part(next_route_key, "review"@)) && (band == "At Risk"@ || band == "Not Ready"@)
            ==> areal_mode(tier, band, pending_review_count, due_memory_count, has_recent_uploads, next_route_key)
            == "repair_and_stabilize"@,
        !has_recent_uploads && pending_review_count <= 0 && due_memory_count <= 0 && band != "At Risk"@
            && band != "Not Ready"@ && tier != "elite"@ ==> areal_mode(
            tier, band, pending_review_count, due_memory_count, has_recent_uploads, next_route_key,
        ) == "steady_progress"@,
        !(has_recent_uploads && has_part(next_route_key, "review"@)) && pending_review_count <= 0 && due_memory_count <= 0
            && band != "At Risk"@ && band != "Not Ready"@ && tier == "elite"@ && (has_part(next_route_key, "exam"@)
            || has_part(next_route_key, "pressure"@)) ==> areal_mode(
            tier, band, pending_review_count, due_memory_count, has_recent_uploads, next_route_key,
        ) == "elite_push"@,
        ({
            let m = areal_mode(tier, band, pending_review_count, due_memory_count, has_recent_uploads, next_route_key);
            &&& m == "upload_interpreter"@ || m == "repair_and_stabilize"@ || m == "elite_push"@ || m == "steady_progress"@
            &&& m == "upload_interpreter"@ ==> has_recent_uploads
            &&& m == "elite_push"@ ==> tier == "elite"@ && pending_review_count <= 0 && due_memory_count <= 0
        }),
{
    reveal_strlit("upload_interpreter");
    reveal_strlit("repair_and_stabilize");
    reveal_strlit("elite_push");
    reveal_strlit("steady_progress");
    assert("upload_interpreter"@.len() == 18 && "repair_and_stabilize"@.len() == 20);
    assert("elite_push"@.len() == 10 && "steady_progress"@.len() == 15);
}

/// The features an account of the given type unlocks on the given tier.
pub open spec fn unlocked(account_type: Seq<char>, tier: Seq<char>) -> Seq<Seq<char>> {
    first_occurrences(base_features(account_type) + tier_features(account_type, tier))
}

/// Paid tiers only add features: every tier keeps its account type's base features; a
/// parent on premium or elite gets progress sync, strategy updates, exam countdown and
/// concierge monitoring, and elite keeps everything premium gives a parent; a student on
/// premium gets richer reports, and on elite the advanced preparation features; any other
/// tier, and any account type but student and parent, unlocks exactly the base features.
pub proof fn higher_tiers_unlock_more(account_type: Seq<char>, tier: Seq<char>, x: Seq<char>)
    ensures
        base_features(account_type).contains(x) ==> unlocked(account_type, tier).contains(x),
        account_type == "parent"@ && unlocked("parent"@, "premium"@).contains(x) ==> unlocked("parent"@, "elite"@).contains(x),
        unlocked(account_type, "standard"@).contains(x) ==> unlocked(account_type, "premium"@).contains(x),
        unlocked(account_type, "standard"@).contains(x) ==> unlocked(account_type, "elite"@).contains(x),
        account_type == "parent"@ && (tier == "premium"@ || tier == "elite"@) ==> {
            &&& unlocked(account_type, tier).contains("live_progress_sync"@)
            &&& unlocked(account_type, tier).contains("strategy_updates"@)
            &&& unlocked(account_type, tier).contains("exam_countdown_intelligence"@)
            &&& unlocked(account_type, tier).contains("concierge_monitoring"@)
        },
        account_type == "student"@ && tier == "premium"@ ==> unlocked(account_type, tier).contains("richer_reports"@),
        tier != "premium"@ && tier != "elite"@ ==> (unlocked(account_type, tier).contains(x) <==> base_features(account_type).contains(x)),
        account_type != "student"@ && account_type != "parent"@ ==> (unlocked(account_type, tier).contains(x) <==> base_features(account_type).contains(x)),
        account_type == "student"@ && tier == "elite"@ ==> {
            &&& unlocked(account_type, tier).contains("advanced_prep"@)
            &&& unlocked(account_type, tier).contains("harder_pathways"@)
            &&& unlocked(account_type, tier).contains("deeper_diagnostics"@)
            &&& unlocked(account_type, tier).contains("stronger_coach_behavior"@)
        },
{
    reveal_strlit("student");
    reveal_strlit("parent");
    reveal_strlit("admin");
    reveal_strlit("standard");
    reveal_strlit("premium");
    reveal_strlit("elite");
    assert("standard"@.len() == 8 && "premium"@.len() == 7 && "elite"@.len() == 5);
    assert("parent"@[0] == 'p' && "student"@[0] == 's' && "admin"@[0] == 'a');
    let all = |a: Seq<char>, t: Seq<char>| base_features(a) + tier_features(a, t);
    crate::text::dedup_keeps_each_text_once(all(account_type, tier));
    crate::text::dedup_keeps_each_text_once(all(account_type, "standard"@));
    crate::text::dedup_keeps_each_text_once(all(account_type, "premium"@));
    crate::text::dedup_keeps_each_text_once(all(account_type, "elite"@));
    crate::text::dedup_keeps_each_text_once(all("parent"@, "premium"@));
    crate::text::dedup_keeps_each_text_once(all("parent"@, "elite"@));
    assert(tier_features(account_type, "standard"@) =~= Seq::<Seq<char>>::empty());
    if base_features(account_type).contains(x) {
        let k = choose|k: int| 0 <= k < base_features(account_type).len() && base_features(account_type)[k] == x;
        assert(all(account_type, tier)[k] == x);
    }
    if unlocked(account_type, "standard"@).contains(x) {
        assert(all(account_type, "standard"@) =~= base_features(account_type));
        let k = choose|k: int| 0 <= k < base_features(account_type).len() && base_features(account_type)[k] == x;
        assert(all(account_type, "premium"@)[k] == x);
        assert(all(account_type, "elite"@)[k] == x);
    }
    if account_type == "parent"@ {
        assert(tier_features("parent"@, "premium"@) =~= tier_features("parent"@, "elite"@));
    }
    if (tier != "premium"@ && tier != "elite"@) || (account_type != "student"@ && account_type != "parent"@) {
        assert(tier_features(account_type, tier) =~= Seq::<Seq<char>>::empty());
        assert(all(account_type, tier) =~= base_features(account_type));
    }
    let b = base_features(account_type).len() as int;
    if account_type == "parent"@ && (tier == "premium"@ || tier == "elite"@) {
        assert(all(account_type, tier)[b] == "live_progress_sync"@);
        assert(all(account_type, tier)[b + 1] == "strategy_updates"@);
        assert(all(account_type, tier)[b + 2] == "exam_countdown_intelligence"@);
        assert(all(account_type, tier)[b + 3] == "concierge_monitoring"@);
    }
    if account_type == "student"@ && tier == "premium"@ {
        assert(all(account_type, tier)[b] == "richer_reports"@);
    }
    if account_type == "student"@ && tier == "elite"@ {
        assert(all(account_type, tier)[b] == "advanced_prep"@);
        assert(all(account_type, tier)[b + 1] == "harder_pathways"@);
        assert(all(account_type, tier)[b + 2] == "deeper_diagnostics"@);
        assert(all(account_type, tier)[b + 3] == "stronger_coach_behavior"@);
    }
}

} // verus!
