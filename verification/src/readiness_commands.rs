//! Readiness reports: transfer objects and the topic totals behind a learner's coverage.

use vstd::prelude::*;

verus! {

#[derive(Clone, Debug)]
pub struct SubjectReadinessDto {
    pub subject_id: i64,
    pub subject_name: String,
    pub readiness_band: String,
    pub total_topic_count: usize,
    pub mastered_topic_count: usize,
}

#[derive(Clone, Debug)]
pub struct ParentDigestDto {
    pub parent_id: i64,
    pub parent_name: String,
    pub students: Vec<ParentStudentDigestDto>,
    pub generated_at: String,
}

#[derive(Clone, Debug)]
pub struct ParentStudentDigestDto {
    pub student_id: i64,
    pub student_name: String,
    pub overall_readiness_band: String,
    pub active_risks: Vec<String>,
    pub recommendations: Vec<String>,
    pub weekly_memo: String,
}

/// The topics counted across subjects, and how many of them are mastered.
pub open spec fn topic_totals(subjects: Seq<SubjectReadinessDto>) -> (int, int)
    decreases subjects.len(),
{
    if subjects.len() == 0 {
        (0, 0)
    } else {
        let rest = topic_totals(subjects.drop_last());
        (rest.0 + subjects.last().total_topic_count, rest.1 + subjects.last().mastered_topic_count)
    }
}

/// The totals behind coverage (mastered over total topics).
pub fn coverage_counts(subjects: &Vec<SubjectReadinessDto>) -> (r: (usize, usize))
    requires
        topic_totals(subjects@).0 <= usize::MAX,
        topic_totals(subjects@).1 <= usize::MAX,
    ensures
        r.0 == topic_totals(subjects@).0,
        r.1 == topic_totals(subjects@).1,
{
    let mut total: usize = 0;
    let mut mastered: usize = 0;
    let mut i: usize = 0;
    while i < subjects.len()
        invariant
            i <= subjects.len(),
            topic_totals(subjects@).0 <= usize::MAX,
            topic_totals(subjects@).1 <= usize::MAX,
            (total as int, mastered as int) == topic_totals(subjects@.take(i as int)),
        decreases subjects.len() - i,
    {
        assert(subjects@.take(i + 1).drop_last() =~= subjects@.take(i as int));
        proof {
            lemma_topic_totals_prefix(subjects@, i + 1);
        }
        total = total + subjects[i].total_topic_count;
        mastered = mastered + subjects[i].mastered_topic_count;
        i = i + 1;
    }
    assert(subjects@.take(subjects.len() as int) =~= subjects@);
    (total, mastered)
}

/// Totals over a prefix never exceed those over the whole list.
pub proof fn lemma_topic_totals_prefix(subjects: Seq<SubjectReadinessDto>, i: int)
    requires
        0 <= i <= subjects.len(),
    ensures
        topic_totals(subjects.take(i)).0 <= topic_totals(subjects).0,
        topic_totals(subjects.take(i)).1 <= topic_totals(subjects).1,
    decreases subjects.len() - i,
{
    if i < subjects.len() {
        lemma_topic_totals_prefix(subjects, i + 1);
        assert(subjects.take(i + 1).drop_last() =~= subjects.take(i));
    } else {
        assert(subjects.take(i) =~= subjects);
    }
}

} // verus!
