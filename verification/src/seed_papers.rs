//! The two mathematics practice papers the seeding tool installs, and the small rules
//! the tool follows to match seeded questions with what a database already holds.

use vstd::prelude::*;
use crate::assessment_commands::{AdminPastPaperOptionInput, AdminPastPaperQuestionInput};
use crate::error::CommandError;
use crate::product_vault::opt_view;
use crate::text::{digits_of, text_eq, decimal_text, trimmed, upper_of, joined, trim, to_upper_ascii, chars_of, i64_text, lit, cat, join_texts};

verus! {

/// The topics seeded questions are filed under, one per strand of the syllabus.
#[derive(Clone, Copy, Debug)]
pub struct SeedTopicIds {
    pub number_ops: i64,
    pub fractions: i64,
    pub ratios: i64,
    pub equations: i64,
    pub algebra: i64,
    pub powers: i64,
    pub measurement: i64,
    pub data: i64,
    pub probability: i64,
}

/// One of the seed topics.
pub open spec fn seed_topic(t: SeedTopicIds, id: i64) -> bool {
    ||| id == t.number_ops
    ||| id == t.fractions
    ||| id == t.ratios
    ||| id == t.equations
    ||| id == t.algebra
    ||| id == t.powers
    ||| id == t.measurement
    ||| id == t.data
    ||| id == t.probability
}

/// How many options are marked correct.
pub open spec fn marked_count(options: Seq<AdminPastPaperOptionInput>) -> nat
    decreases options.len(),
{
    if options.len() == 0 {
        0
    } else {
        marked_count(options.drop_last()) + if options.last().is_correct { 1nat } else { 0nat }
    }
}

pub open spec fn mark(b: bool) -> nat {
    if b { 1 } else { 0 }
}


/// An answer option as plain values: stored id, label, text and whether it is correct.
pub open spec fn option_view(o: AdminPastPaperOptionInput) -> (Option<i64>, Seq<char>, Seq<char>, bool) {
    (o.option_id, o.option_label@, o.option_text@, o.is_correct)
}

/// The options of a question as plain values, in order.
pub open spec fn options_view(options: Seq<AdminPastPaperOptionInput>) -> Seq<(Option<i64>, Seq<char>, Seq<char>, bool)> {
    options.map_values(|o: AdminPastPaperOptionInput| option_view(o))
}

/// A past-paper question as plain values.
pub struct SeedQuestionView {
    pub question_id: Option<i64>,
    pub section_label: Seq<char>,
    pub question_number: Option<Seq<char>>,
    pub topic_id: i64,
    pub subtopic_id: Option<i64>,
    pub stem: Seq<char>,
    pub question_format: Seq<char>,
    pub primary_pedagogic_function: Option<Seq<char>>,
    pub explanation_text: Option<Seq<char>>,
    pub difficulty_level: Option<i64>,
    pub marks: Option<i64>,
    pub options: Seq<(Option<i64>, Seq<char>, Seq<char>, bool)>,
}

pub open spec fn question_view(q: AdminPastPaperQuestionInput) -> SeedQuestionView {
    SeedQuestionView {
        question_id: q.question_id,
        section_label: q.section_label@,
        question_number: opt_view(q.question_number),
        topic_id: q.topic_id,
        subtopic_id: q.subtopic_id,
        stem: q.stem@,
        question_format: q.question_format@,
        primary_pedagogic_function: opt_view(q.primary_pedagogic_function),
        explanation_text: opt_view(q.explanation_text),
        difficulty_level: q.difficulty_level,
        marks: q.marks,
        options: options_view(q.options@),
    }
}

/// A new answer option.
pub fn option(label: &str, text: &str, is_correct: bool) -> (r: AdminPastPaperOptionInput)
    ensures
        r.option_id is None,
        r.option_label@ == label@,
        r.option_text@ == text@,
        r.is_correct == is_correct,
{
    AdminPastPaperOptionInput { option_id: None, option_label: lit(label), option_text: lit(text), is_correct }
}

/// The four options of a multiple-choice question, in order.
pub fn choices(
    a: AdminPastPaperOptionInput,
    b: AdminPastPaperOptionInput,
    c: AdminPastPaperOptionInput,
    d: AdminPastPaperOptionInput,
) -> (r: Vec<AdminPastPaperOptionInput>)
    ensures
        r@.len() == 4,
        r@[0] == a,
        r@[1] == b,
        r@[2] == c,
        r@[3] == d,
        marked_count(r@) == mark(a.is_correct) + mark(b.is_correct) + mark(c.is_correct) + mark(d.is_correct),
        options_view(r@) == seq![option_view(a), option_view(b), option_view(c), option_view(d)],
{
    let mut v: Vec<AdminPastPaperOptionInput> = Vec::new();
    v.push(a);
    v.push(b);
    v.push(c);
    v.push(d);
    proof {
        reveal_with_fuel(marked_count, 5);
        assert(v@.drop_last().drop_last().drop_last().drop_last() =~= Seq::<AdminPastPaperOptionInput>::empty());
        assert(options_view(v@) =~= seq![option_view(a), option_view(b), option_view(c), option_view(d)]);
    }
    v
}

/// A multiple-choice question worth one mark.
pub fn mcq(
    section_label: &str,
    question_number: i64,
    topic_id: i64,
    stem: &str,
    explanation_text: &str,
    difficulty_level: i64,
    options: Vec<AdminPastPaperOptionInput>,
) -> (r: AdminPastPaperQuestionInput)
    ensures
        r.question_id is None,
        r.section_label@ == section_label@,
        opt_view(r.question_number) == Some(decimal_text(question_number as int)),
        r.topic_id == topic_id,
        r.subtopic_id is None,
        r.stem@ == stem@,
        r.question_format@ == "mcq"@,
        r.primary_pedagogic_function is None,
        opt_view(r.explanation_text) == Some(explanation_text@),
        r.difficulty_level == Some(difficulty_level),
        r.marks == Some(1i64),
        r.options@ == options@,
{
    AdminPastPaperQuestionInput {
        question_id: None,
        section_label: lit(section_label),
        question_number: Some(i64_text(question_number)),
        topic_id,
        subtopic_id: None,
        stem: lit(stem),
        question_format: lit("mcq"),
        primary_pedagogic_function: None,
        explanation_text: Some(lit(explanation_text)),
        difficulty_level: Some(difficulty_level),
        marks: Some(1),
        options,
    }
}

/// A written question with a model answer and no options.
pub fn theory(
    section_label: &str,
    question_number: i64,
    topic_id: i64,
    stem: &str,
    question_format: &str,
    marks: i64,
    difficulty_level: i64,
    answer_text: &str,
) -> (r: AdminPastPaperQuestionInput)
    ensures
        r.question_id is None,
        r.section_label@ == section_label@,
        opt_view(r.question_number) == Some(decimal_text(question_number as int)),
        r.topic_id == topic_id,
        r.subtopic_id is None,
        r.stem@ == stem@,
        r.question_format@ == question_format@,
        r.primary_pedagogic_function is None,
        opt_view(r.explanation_text) == Some(answer_text@),
        r.difficulty_level == Some(difficulty_level),
        r.marks == Some(marks),
        r.options@.len() == 0,
        options_view(r.options@) == Seq::<(Option<i64>, Seq<char>, Seq<char>, bool)>::empty(),
{
    let q = AdminPastPaperQuestionInput {
        question_id: None,
        section_label: lit(section_label),
        question_number: Some(i64_text(question_number)),
        topic_id,
        subtopic_id: None,
        stem: lit(stem),
        question_format: lit(question_format),
        primary_pedagogic_function: None,
        explanation_text: Some(lit(answer_text)),
        difficulty_level: Some(difficulty_level),
        marks: Some(marks),
        options: Vec::new(),
    };
    assert(options_view(q.options@) =~= Seq::<(Option<i64>, Seq<char>, Seq<char>, bool)>::empty());
    q
}

/// Seeded multiple-choice questions come first in section A, numbered from one, each
/// with options A to D of which exactly one is correct.
pub open spec fn seed_mcq_ok(q: AdminPastPaperQuestionInput, number: int, topics: SeedTopicIds) -> bool {
    &&& q.question_id is None
    &&& q.section_label@ == "A"@
    &&& opt_view(q.question_number) == Some(decimal_text(number))
    &&& seed_topic(topics, q.topic_id)
    &&& q.question_format@ == "mcq"@
    &&& q.marks == Some(1i64)
    &&& q.options@.len() == 4
    &&& q.options@[0].option_label@ == "A"@
    &&& q.options@[1].option_label@ == "B"@
    &&& q.options@[2].option_label@ == "C"@
    &&& q.options@[3].option_label@ == "D"@
    &&& marked_count(q.options@) == 1
}

/// Seeded written questions follow in section B, numbered from one, as short answers
/// carrying marks and no options.
pub open spec fn seed_theory_ok(q: AdminPastPaperQuestionInput, number: int, topics: SeedTopicIds) -> bool {
    &&& q.question_id is None
    &&& q.section_label@ == "B"@
    &&& opt_view(q.question_number) == Some(decimal_text(number))
    &&& seed_topic(topics, q.topic_id)
    &&& q.question_format@ == "short_answer"@
    &&& q.marks matches Some(m) && m > 0
    &&& q.options@.len() == 0
}

/// The number of multiple-choice questions in a seeded paper.
pub open spec fn seed_mcq_count() -> int {
    40
}

/// The layout of a seeded paper, up to its length so far.
pub open spec fn seed_paper_ok(qs: Seq<AdminPastPaperQuestionInput>, topics: SeedTopicIds) -> bool {
    forall|i: int| 0 <= i < qs.len() ==> if i < seed_mcq_count() {
        seed_mcq_ok(#[trigger] qs[i], i + 1, topics)
    } else {
        seed_theory_ok(qs[i], i - seed_mcq_count() + 1, topics)
    }
}

/// Question `i` (from zero) of the 2023 practice paper, exactly as seeded.
pub open spec fn seed_2023_question(i: int, t: SeedTopicIds) -> SeedQuestionView {
    if i == 0 {
        SeedQuestionView { question_id: None, section_label: "A"@, question_number: Some(decimal_text(1)), topic_id: t.fractions, subtopic_id: None, stem: "Simplify 15/20 to its lowest terms."@, question_format: "mcq"@, primary_pedagogic_function: None, explanation_text: Some("Divide the numerator and denominator by 5 to get 3/4."@), difficulty_level: Some(3600i64), marks: Some(1i64), options: seq![(None, "A"@, "3/4"@, true), (None, "B"@, "5/4"@, false), (None, "C"@, "2/5"@, false), (None, "D"@, "4/3"@, false)] }
    } else if i == 1 {
        SeedQuestionView { question_id: None, section_label: "A"@, question_number: Some(decimal_text(2)), topic_id: t.fractions, subtopic_id: None, stem: "Find 25% of 160."@, question_format: "mcq"@, primary_pedagogic_function: None, explanation_text: Some("25% is one quarter, and one quarter of 160 is 40."@), difficulty_level: Some(3400i64), marks: Some(1i64), options: seq![(None, "A"@, "20"@, false), (None, "B"@, "40"@, true), (None, "C"@, "60"@, false), (None, "D"@, "80"@, false)] }
    } else if i == 2 {
        SeedQuestionView { question_id: None, section_label: "A"@, question_number: Some(decimal_text(3)), topic_id: t.equations, subtopic_id: None, stem: "Solve 3x + 5 = 20."@, question_format: "mcq"@, primary_pedagogic_function: None, explanation_text: Some("Subtract 5 from both sides to get 3x = 15, then divide by 3."@), difficulty_level: Some(4300i64), marks: Some(1i64), options: seq![(None, "A"@, "3"@, false), (None, "B"@, "4"@, false), (None, "C"@, "5"@, true), (None, "D"@, "8"@, false)] }
    } else if i == 3 {
        SeedQuestionView { question_id: None, section_label: "A"@, question_number: Some(decimal_text(4)), topic_id: t.ratios, subtopic_id: None, stem: "A class has boys and girls in the ratio 3:5. If there are 40 students altogether, how many are boys?"@, question_format: "mcq"@, primary_pedagogic_function: None, explanation_text: Some("The total number of parts is 8, so each part is 40/8 = 5. Boys are 3 parts: 3 x 5 = 15."@), difficulty_level: Some(4700i64), marks: Some(1i64), options: seq![(None, "A"@, "12"@, false), (None, "B"@, "15"@, true), (None, "C"@, "20"@, false), (None, "D"@, "25"@, false)] }
    } else if i == 4 {
        SeedQuestionView { question_id: None, section_label: "A"@, question_number: Some(decimal_text(5)), topic_id: t.measurement, subtopic_id: None, stem: "Find the area of a circle of radius 7 cm. Take pi = 22/7."@, question_format: "mcq"@, primary_pedagogic_function: None, explanation_text: Some("Area = pi r^2 = (22/7) x 7 x 7 = 154 cm^2."@), difficulty_level: Some(5200i64), marks: Some(1i64), options: seq![(None, "A"@, "44 cm^2"@, false), (None, "B"@, "77 cm^2"@, false), (None, "C"@, "154 cm^2"@, true), (None, "D"@, "308 cm^2"@, false)] }
    } else if i == 5 {
        SeedQuestionView { question_id: None, section_label: "A"@, question_number: Some(decimal_text(6)), topic_id: t.data, subtopic_id: None, stem: "Find the mean of 4, 6, 8 and 12."@, question_format: "mcq"@, primary_pedagogic_function: None, explanation_text: Some("Add the values to get 30 and divide by 4 to get 7.5."@), difficulty_level: Some(3900i64), marks: Some(1i64), options: seq![(None, "A"@, "6.5"@, false), (None, "B"@, "7.0"@, false), (None, "C"@, "7.5"@, true), (None, "D"@, "8.0"@, false)] }
    } else if i == 6 {
        SeedQuestionView { question_id: None, section_label: "A"@, question_number: Some(decimal_text(7)), topic_id: t.ratios, subtopic_id: None, stem: "Find the simple interest on GHC600 for 2 years at 5% per annum."@, question_format: "mcq"@, primary_pedagogic_function: None, explanation_text: Some("Simple interest = PRT/100 = 600 x 5 x 2 / 100 = 60."@), difficulty_level: Some(4800i64), marks: Some(1i64), options: seq![(None, "A"@, "30"@, false), (None, "B"@, "60"@, true), (None, "C"@, "120"@, false), (None, "D"@, "660"@, false)] }
    } else if i == 7 {
        SeedQuestionView { question_id: None, section_label: "A"@, question_number: Some(decimal_text(8)), topic_id: t.probability, subtopic_id: None, stem: "A bag contains 3 red balls and 2 blue balls. What is the probability of picking a red ball at random?"@, question_format: "mcq"@, primary_pedagogic_function: None, explanation_text: Some("There are 5 balls altogether, and 3 of them are red, so the probability is 3/5."@), difficulty_level: Some(4100i64), marks: Some(1i64), options: seq![(None, "A"@, "2/5"@, false), (None, "B"@, "3/5"@, true), (None, "C"@, "1/2"@, false), (None, "D"@, "5/3"@, false)] }
    } else if i == 8 {
        SeedQuestionView { question_id: None, section_label: "A"@, question_number: Some(decimal_text(9)), topic_id: t.algebra, subtopic_id: None, stem: "Expand 2(3x - 4)."@, question_format: "mcq"@, primary_pedagogic_function: None, explanation_text: Some("Multiply 2 by each term inside the bracket: 2 x 3x = 6x and 2 x -4 = -8."@), difficulty_level: Some(4500i64), marks: Some(1i64), options: seq![(None, "A"@, "6x - 8"@, true), (None, "B"@, "6x - 4"@, false), (None, "C"@, "5x - 8"@, false), (None, "D"@, "6x + 8"@, false)] }
    } else if i == 9 {
        SeedQuestionView { question_id: None, section_label: "A"@, question_number: Some(decimal_text(10)), topic_id: t.measurement, subtopic_id: None, stem: "The exterior angle of a triangle is equal to the sum of the two opposite interior angles. If the two opposite interior angles are 35 degrees and 65 degrees, find the exterior angle."@, question_format: "mcq"@, primary_pedagogic_function: None, explanation_text: Some("Add the two opposite interior angles: 35 + 65 = 100 degrees."@), difficulty_level: Some(4200i64), marks: Some(1i64), options: seq![(None, "A"@, "90 degrees"@, false), (None, "B"@, "95 degrees"@, false), (None, "C"@, "100 degrees"@, true), (None, "D"@, "110 degrees"@, false)] }
    } else if i == 10 {
        SeedQuestionView { question_id: None, section_label: "A"@, question_number: Some(decimal_text(11)), topic_id: t.number_ops, subtopic_id: None, stem: "Find the least common multiple (LCM) of 12 and 18."@, question_format: "mcq"@, primary_pedagogic_function: None, explanation_text: Some("The common multiple with the smallest value is 36."@), difficulty_level: Some(4200i64), marks: Some(1i64), options: seq![(None, "A"@, "6"@, false), (None, "B"@, "24"@, false), (None, "C"@, "36"@, true), (None, "D"@, "54"@, false)] }
    } else if i == 11 {
        SeedQuestionView { question_id: None, section_label: "A"@, question_number: Some(decimal_text(12)), topic_id: t.fractions, subtopic_id: None, stem: "Which of the following is the greatest?"@, question_format: "mcq"@, primary_pedagogic_function: None, explanation_text: Some("Convert each to decimals: 2/5 = 0.4, 38% = 0.38, 0.45 = 0.45, and 0.405 = 0.405. So 0.45 is greatest."@), difficulty_level: Some(4100i64), marks: Some(1i64), options: seq![(None, "A"@, "2/5"@, false), (None, "B"@, "38%"@, false), (None, "C"@, "0.45"@, true), (None, "D"@, "0.405"@, false)] }
    } else if i == 12 {
        SeedQuestionView { question_id: None, section_label: "A"@, question_number: Some(decimal_text(13)), topic_id: t.powers, subtopic_id: None, stem: "Evaluate 3^2 + 4^2."@, question_format: "mcq"@, primary_pedagogic_function: None, explanation_text: Some("3 squared is 9 and 4 squared is 16. Their sum is 25."@), difficulty_level: Some(3600i64), marks: Some(1i64), options: seq![(None, "A"@, "7"@, false), (None, "B"@, "13"@, false), (None, "C"@, "25"@, true), (None, "D"@, "49"@, false)] }
    } else if i == 13 {
        SeedQuestionView { question_id: None, section_label: "A"@, question_number: Some(decimal_text(14)), topic_id: t.algebra, subtopic_id: None, stem: "Factorise x^2 + 5x + 6."@, question_format: "mcq"@, primary_pedagogic_function: None, explanation_text: Some("The factors of 6 that add up to 5 are 2 and 3, so the expression becomes (x + 2)(x + 3)."@), difficulty_level: Some(5200i64), marks: Some(1i64), options: seq![(None, "A"@, "(x + 1)(x + 6)"@, false), (None, "B"@, "(x + 2)(x + 3)"@, true), (None, "C"@, "(x - 2)(x - 3)"@, false), (None, "D"@, "(x + 5)(x + 1)"@, false)] }
    } else if i == 14 {
        SeedQuestionView { question_id: None, section_label: "A"@, question_number: Some(decimal_text(15)), topic_id: t.equations, subtopic_id: None, stem: "Solve 5x = 3x + 14."@, question_format: "mcq"@, primary_pedagogic_function: None, explanation_text: Some("Subtract 3x from both sides to get 2x = 14, so x = 7."@), difficulty_level: Some(4300i64), marks: Some(1i64), options: seq![(None, "A"@, "5"@, false), (None, "B"@, "7"@, true), (None, "C"@, "8"@, false), (None, "D"@, "14"@, false)] }
    } else if i == 15 {
        SeedQuestionView { question_id: None, section_label: "A"@, question_number: Some(decimal_text(16)), topic_id: t.measurement, subtopic_id: None, stem: "Find the circumference of a circle of diameter 14 cm. Take pi = 22/7."@, question_format: "mcq"@, primary_pedagogic_function: None, explanation_text: Some("Circumference = pi x d = (22/7) x 14 = 44 cm."@), difficulty_level: Some(4300i64), marks: Some(1i64), options: seq![(None, "A"@, "22 cm"@, false), (None, "B"@, "44 cm"@, true), (None, "C"@, "88 cm"@, false), (None, "D"@, "154 cm"@, false)] }
    } else if i == 16 {
        SeedQuestionView { question_id: None, section_label: "A"@, question_number: Some(decimal_text(17)), topic_id: t.data, subtopic_id: None, stem: "Find the median of 3, 5, 7, 8 and 12."@, question_format: "mcq"@, primary_pedagogic_function: None, explanation_text: Some("The numbers are already arranged, and the middle value is 7."@), difficulty_level: Some(3200i64), marks: Some(1i64), options: seq![(None, "A"@, "5"@, false), (None, "B"@, "7"@, true), (None, "C"@, "8"@, false), (None, "D"@, "12"@, false)] }
    } else if i == 17 {
        SeedQuestionView { question_id: None, section_label: "A"@, question_number: Some(decimal_text(18)), topic_id: t.probability, subtopic_id: None, stem: "What is the probability of not getting a head when a fair coin is tossed once?"@, question_format: "mcq"@, primary_pedagogic_function: None, explanation_text: Some("The only outcome that is not a head is a tail, so the probability is 1 out of 2."@), difficulty_level: Some(3300i64), marks: Some(1i64), options: seq![(None, "A"@, "0"@, false), (None, "B"@, "1/4"@, false), (None, "C"@, "1/2"@, true), (None, "D"@, "1"@, false)] }
    } else if i == 18 {
        SeedQuestionView { question_id: None, section_label: "A"@, question_number: Some(decimal_text(19)), topic_id: t.ratios, subtopic_id: None, stem: "On a map drawn to a scale of 1 : 50,000, the distance between two towns is 4 cm. Find the actual distance."@, question_format: "mcq"@, primary_pedagogic_function: None, explanation_text: Some("Actual distance = 4 x 50,000 cm = 200,000 cm = 2 km."@), difficulty_level: Some(5200i64), marks: Some(1i64), options: seq![(None, "A"@, "0.2 km"@, false), (None, "B"@, "2 km"@, true), (None, "C"@, "20 km"@, false), (None, "D"@, "200 km"@, false)] }
    } else if i == 19 {
        SeedQuestionView { question_id: None, section_label: "A"@, question_number: Some(decimal_text(20)), topic_id: t.measurement, subtopic_id: None, stem: "Find the area of a triangle with base 12 cm and height 9 cm."@, question_format: "mcq"@, primary_pedagogic_function: None, explanation_text: Some("Area = 1/2 x base x height = 1/2 x 12 x 9 = 54 cm^2."@), difficulty_level: Some(4000i64), marks: Some(1i64), options: seq![(None, "A"@, "21 cm^2"@, false), (None, "B"@, "54 cm^2"@, true), (None, "C"@, "108 cm^2"@, false), (None, "D"@, "216 cm^2"@, false)] }
    } else if i == 20 {
        SeedQuestionView { question_id: None, section_label: "A"@, question_number: Some(decimal_text(21)), topic_id: t.fractions, subtopic_id: None, stem: "Evaluate 3/4 + 2/3."@, question_format: "mcq"@, primary_pedagogic_function: None, explanation_text: Some("Use a common denominator of 12: 9/12 + 8/12 = 17/12."@), difficulty_level: Some(5000i64), marks: Some(1i64), options: seq![(None, "A"@, "5/7"@, false), (None, "B"@, "17/12"@, true), (None, "C"@, "11/12"@, false), (None, "D"@, "19/12"@, false)] }
    } else if i == 21 {
        SeedQuestionView { question_id: None, section_label: "A"@, question_number: Some(decimal_text(22)), topic_id: t.algebra, subtopic_id: None, stem: "Simplify 5a - 2a + 7."@, question_format: "mcq"@, primary_pedagogic_function: None, explanation_text: Some("Combine like terms: 5a - 2a = 3a, so the result is 3a + 7."@), difficulty_level: Some(3600i64), marks: Some(1i64), options: seq![(None, "A"@, "7a"@, false), (None, "B"@, "3a + 7"@, true), (None, "C"@, "3a - 7"@, false), (None, "D"@, "5a + 5"@, false)] }
    } else if i == 22 {
        SeedQuestionView { question_id: None, section_label: "A"@, question_number: Some(decimal_text(23)), topic_id: t.number_ops, subtopic_id: None, stem: "What is the least prime factor of 91?"@, question_format: "mcq"@, primary_pedagogic_function: None, explanation_text: Some("91 = 7 x 13, so its least prime factor is 7."@), difficulty_level: Some(4700i64), marks: Some(1i64), options: seq![(None, "A"@, "3"@, false), (None, "B"@, "5"@, false), (None, "C"@, "7"@, true), (None, "D"@, "13"@, false)] }
    } else if i == 23 {
        SeedQuestionView { question_id: None, section_label: "A"@, question_number: Some(decimal_text(24)), topic_id: t.ratios, subtopic_id: None, stem: "A shirt marked GHC200 is sold at a discount of 15%. Find the discount."@, question_format: "mcq"@, primary_pedagogic_function: None, explanation_text: Some("Discount = 15/100 x 200 = GHC30."@), difficulty_level: Some(4200i64), marks: Some(1i64), options: seq![(None, "A"@, "GHC15"@, false), (None, "B"@, "GHC20"@, false), (None, "C"@, "GHC30"@, true), (None, "D"@, "GHC170"@, false)] }
    } else if i == 24 {
        SeedQuestionView { question_id: None, section_label: "A"@, question_number: Some(decimal_text(25)), topic_id: t.measurement, subtopic_id: None, stem: "Find the perimeter of a rectangle of length 11 cm and width 7 cm."@, question_format: "mcq"@, primary_pedagogic_function: None, explanation_text: Some("Perimeter = 2(l + w) = 2(11 + 7) = 36 cm."@), difficulty_level: Some(3500i64), marks: Some(1i64), options: seq![(None, "A"@, "18 cm"@, false), (None, "B"@, "22 cm"@, false), (None, "C"@, "36 cm"@, true), (None, "D"@, "77 cm"@, false)] }
    } else if i == 25 {
        SeedQuestionView { question_id: None, section_label: "A"@, question_number: Some(decimal_text(26)), topic_id: t.data, subtopic_id: None, stem: "Find the range of 6, 9, 13, 15 and 8."@, question_format: "mcq"@, primary_pedagogic_function: None, explanation_text: Some("Range = highest value - lowest value = 15 - 6 = 9."@), difficulty_level: Some(3300i64), marks: Some(1i64), options: seq![(None, "A"@, "7"@, false), (None, "B"@, "8"@, false), (None, "C"@, "9"@, true), (None, "D"@, "21"@, false)] }
    } else if i == 26 {
        SeedQuestionView { question_id: None, section_label: "A"@, question_number: Some(decimal_text(27)), topic_id: t.probability, subtopic_id: None, stem: "A card is picked at random from a standard pack of 52 cards. What is the probability of picking an ace?"@, question_format: "mcq"@, primary_pedagogic_function: None, explanation_text: Some("There are 4 aces in 52 cards, so the probability is 4/52 = 1/13."@), difficulty_level: Some(4500i64), marks: Some(1i64), options: seq![(None, "A"@, "1/4"@, false), (None, "B"@, "1/13"@, true), (None, "C"@, "4/13"@, false), (None, "D"@, "13/52"@, false)] }
    } else if i == 27 {
        SeedQuestionView { question_id: None, section_label: "A"@, question_number: Some(decimal_text(28)), topic_id: t.powers, subtopic_id: None, stem: "Find the square root of 144."@, question_format: "mcq"@, primary_pedagogic_function: None, explanation_text: Some("12 x 12 = 144, so the square root is 12."@), difficulty_level: Some(3100i64), marks: Some(1i64), options: seq![(None, "A"@, "10"@, false), (None, "B"@, "11"@, false), (None, "C"@, "12"@, true), (None, "D"@, "14"@, false)] }
    } else if i == 28 {
        SeedQuestionView { question_id: None, section_label: "A"@, question_number: Some(decimal_text(29)), topic_id: t.equations, subtopic_id: None, stem: "If y/3 = 7, find y."@, question_format: "mcq"@, primary_pedagogic_function: None, explanation_text: Some("Multiply both sides by 3 to get y = 21."@), difficulty_level: Some(3200i64), marks: Some(1i64), options: seq![(None, "A"@, "10"@, false), (None, "B"@, "18"@, false), (None, "C"@, "21"@, true), (None, "D"@, "28"@, false)] }
    } else if i == 29 {
        SeedQuestionView { question_id: None, section_label: "A"@, question_number: Some(decimal_text(30)), topic_id: t.measurement, subtopic_id: None, stem: "Find the area of a semicircle of radius 14 cm. Take pi = 22/7."@, question_format: "mcq"@, primary_pedagogic_function: None, explanation_text: Some("Area of full circle = (22/7) x 14 x 14 = 616 cm^2. Half of this is 308 cm^2."@), difficulty_level: Some(5500i64), marks: Some(1i64), options: seq![(None, "A"@, "154 cm^2"@, false), (None, "B"@, "308 cm^2"@, true), (None, "C"@, "616 cm^2"@, false), (None, "D"@, "44 cm^2"@, false)] }
    } else if i == 30 {
        SeedQuestionView { question_id: None, section_label: "A"@, question_number: Some(decimal_text(31)), topic_id: t.fractions, subtopic_id: None, stem: "Write 1.25 as a mixed number."@, question_format: "mcq"@, primary_pedagogic_function: None, explanation_text: Some("1.25 = 1 + 0.25 = 1 1/4."@), difficulty_level: Some(3400i64), marks: Some(1i64), options: seq![(None, "A"@, "1 1/4"@, true), (None, "B"@, "1 2/5"@, false), (None, "C"@, "1 1/5"@, false), (None, "D"@, "5/4"@, false)] }
    } else if i == 31 {
        SeedQuestionView { question_id: None, section_label: "A"@, question_number: Some(decimal_text(32)), topic_id: t.algebra, subtopic_id: None, stem: "Evaluate 2x - 3 when x = 5."@, question_format: "mcq"@, primary_pedagogic_function: None, explanation_text: Some("Substitute x = 5: 2(5) - 3 = 10 - 3 = 7."@), difficulty_level: Some(3000i64), marks: Some(1i64), options: seq![(None, "A"@, "5"@, false), (None, "B"@, "7"@, true), (None, "C"@, "10"@, false), (None, "D"@, "13"@, false)] }
    } else if i == 32 {
        SeedQuestionView { question_id: None, section_label: "A"@, question_number: Some(decimal_text(33)), topic_id: t.number_ops, subtopic_id: None, stem: "Multiply 2.75 by 10."@, question_format: "mcq"@, primary_pedagogic_function: None, explanation_text: Some("Multiplying by 10 moves the decimal point one place to the right, giving 27.5."@), difficulty_level: Some(2800i64), marks: Some(1i64), options: seq![(None, "A"@, "2.75"@, false), (None, "B"@, "7.25"@, false), (None, "C"@, "27.5"@, true), (None, "D"@, "275"@, false)] }
    } else if i == 33 {
        SeedQuestionView { question_id: None, section_label: "A"@, question_number: Some(decimal_text(34)), topic_id: t.ratios, subtopic_id: None, stem: "Divide 72 in the ratio 5 : 7. What is the larger share?"@, question_format: "mcq"@, primary_pedagogic_function: None, explanation_text: Some("Total parts = 12, so each part is 72/12 = 6. The larger share is 7 x 6 = 42."@), difficulty_level: Some(4700i64), marks: Some(1i64), options: seq![(None, "A"@, "30"@, false), (None, "B"@, "35"@, false), (None, "C"@, "42"@, true), (None, "D"@, "49"@, false)] }
    } else if i == 34 {
        SeedQuestionView { question_id: None, section_label: "A"@, question_number: Some(decimal_text(35)), topic_id: t.measurement, subtopic_id: None, stem: "Convert 2.5 metres to centimetres."@, question_format: "mcq"@, primary_pedagogic_function: None, explanation_text: Some("1 metre = 100 cm, so 2.5 m = 250 cm."@), difficulty_level: Some(3000i64), marks: Some(1i64), options: seq![(None, "A"@, "25 cm"@, false), (None, "B"@, "250 cm"@, true), (None, "C"@, "2500 cm"@, false), (None, "D"@, "0.25 cm"@, false)] }
    } else if i == 35 {
        SeedQuestionView { question_id: None, section_label: "A"@, question_number: Some(decimal_text(36)), topic_id: t.data, subtopic_id: None, stem: "Find the mean of 9, 10, 11, 12 and 13."@, question_format: "mcq"@, primary_pedagogic_function: None, explanation_text: Some("The sum is 55 and 55/5 = 11."@), difficulty_level: Some(3100i64), marks: Some(1i64), options: seq![(None, "A"@, "10"@, false), (None, "B"@, "11"@, true), (None, "C"@, "12"@, false), (None, "D"@, "13"@, false)] }
    } else if i == 36 {
        SeedQuestionView { question_id: None, section_label: "A"@, question_number: Some(decimal_text(37)), topic_id: t.probability, subtopic_id: None, stem: "A spinner is numbered 1 to 8. What is the probability of landing on a number greater than 5?"@, question_format: "mcq"@, primary_pedagogic_function: None, explanation_text: Some("The numbers greater than 5 are 6, 7 and 8. So the probability is 3 out of 8."@), difficulty_level: Some(3600i64), marks: Some(1i64), options: seq![(None, "A"@, "1/4"@, false), (None, "B"@, "3/8"@, true), (None, "C"@, "1/2"@, false), (None, "D"@, "5/8"@, false)] }
    } else if i == 37 {
        SeedQuestionView { question_id: None, section_label: "A"@, question_number: Some(decimal_text(38)), topic_id: t.equations, subtopic_id: None, stem: "Solve 4(x - 2) = 20."@, question_format: "mcq"@, primary_pedagogic_function: None, explanation_text: Some("Divide by 4 to get x - 2 = 5, then add 2 to get x = 7."@), difficulty_level: Some(4300i64), marks: Some(1i64), options: seq![(None, "A"@, "3"@, false), (None, "B"@, "5"@, false), (None, "C"@, "7"@, true), (None, "D"@, "8"@, false)] }
    } else if i == 38 {
        SeedQuestionView { question_id: None, section_label: "A"@, question_number: Some(decimal_text(39)), topic_id: t.measurement, subtopic_id: None, stem: "Find the supplement of 125 degrees."@, question_format: "mcq"@, primary_pedagogic_function: None, explanation_text: Some("Angles on a straight line add up to 180 degrees, so the supplement is 180 - 125 = 55 degrees."@), difficulty_level: Some(3200i64), marks: Some(1i64), options: seq![(None, "A"@, "45 degrees"@, false), (None, "B"@, "55 degrees"@, true), (None, "C"@, "65 degrees"@, false), (None, "D"@, "125 degrees"@, false)] }
    } else if i == 39 {
        SeedQuestionView { question_id: None, section_label: "A"@, question_number: Some(decimal_text(40)), topic_id: t.fractions, subtopic_id: None, stem: "If 3/5 of a number is 24, find the number."@, question_format: "mcq"@, primary_pedagogic_function: None, explanation_text: Some("Let the number be n. Then 3/5 of n = 24, so n = 24 x 5/3 = 40."@), difficulty_level: Some(5000i64), marks: Some(1i64), options: seq![(None, "A"@, "30"@, false), (None, "B"@, "35"@, false), (None, "C"@, "40"@, true), (None, "D"@, "45"@, false)] }
    } else if i == 40 {
        SeedQuestionView { question_id: None, section_label: "B"@, question_number: Some(decimal_text(1)), topic_id: t.ratios, subtopic_id: None, stem: "A trader buys 36 exercise books at GHC8 each and sells each one at GHC10.50. Find the total profit and the percentage profit."@, question_format: "short_answer"@, primary_pedagogic_function: None, explanation_text: Some("Cost price = 36 x 8 = GHC288. Selling price = 36 x 10.50 = GHC378. Profit = 378 - 288 = GHC90. Percentage profit = (90/288) x 100 = 31.25%."@), difficulty_level: Some(5600i64), marks: Some(6i64), options: Seq::empty() }
    } else if i == 41 {
        SeedQuestionView { question_id: None, section_label: "B"@, question_number: Some(decimal_text(2)), topic_id: t.equations, subtopic_id: None, stem: "Solve the simultaneous equations x + y = 17 and x - y = 5."@, question_format: "short_answer"@, primary_pedagogic_function: None, explanation_text: Some("Add the equations to get 2x = 22, so x = 11. Substitute into x + y = 17 to get y = 6."@), difficulty_level: Some(5900i64), marks: Some(6i64), options: Seq::empty() }
    } else if i == 42 {
        SeedQuestionView { question_id: None, section_label: "B"@, question_number: Some(decimal_text(3)), topic_id: t.measurement, subtopic_id: None, stem: "A rectangular field measures 18 m by 12 m. A path 1 m wide is made all around the outside of the field. Find the area of the path."@, question_format: "short_answer"@, primary_pedagogic_function: None, explanation_text: Some("Outer dimensions = 20 m by 14 m, so outer area = 280 m^2. Inner area = 18 x 12 = 216 m^2. Area of path = 280 - 216 = 64 m^2."@), difficulty_level: Some(6100i64), marks: Some(5i64), options: Seq::empty() }
    } else {
        SeedQuestionView { question_id: None, section_label: "B"@, question_number: Some(decimal_text(4)), topic_id: t.data, subtopic_id: None, stem: "The marks scored by 8 students are 4, 7, 9, 6, 4, 8, 7 and 5. Find the mean, median and mode."@, question_format: "short_answer"@, primary_pedagogic_function: None, explanation_text: Some("Sorted data: 4, 4, 5, 6, 7, 7, 8, 9. Mean = 50/8 = 6.25. Median = (6 + 7)/2 = 6.5. Mode = 4 and 7."@), difficulty_level: Some(5400i64), marks: Some(6i64), options: Seq::empty() }
    }
}

/// Question `i` (from zero) of the 2022 practice paper, exactly as seeded.
pub open spec fn seed_2022_question(i: int, t: SeedTopicIds) -> SeedQuestionView {
    if i == 0 {
        SeedQuestionView { question_id: None, section_label: "A"@, question_number: Some(decimal_text(1)), topic_id: t.fractions, subtopic_id: None, stem: "Write 0.375 as a fraction in its simplest form."@, question_format: "mcq"@, primary_pedagogic_function: None, explanation_text: Some("0.375 = 375/1000. Divide the numerator and denominator by 125 to get 3/8."@), difficulty_level: Some(3800i64), marks: Some(1i64), options: seq![(None, "A"@, "3/5"@, false), (None, "B"@, "3/8"@, true), (None, "C"@, "5/8"@, false), (None, "D"@, "8/3"@, false)] }
    } else if i == 1 {
        SeedQuestionView { question_id: None, section_label: "A"@, question_number: Some(decimal_text(2)), topic_id: t.equations, subtopic_id: None, stem: "Solve 2y - 7 = 11."@, question_format: "mcq"@, primary_pedagogic_function: None, explanation_text: Some("Add 7 to both sides to get 2y = 18, then divide by 2."@), difficulty_level: Some(4100i64), marks: Some(1i64), options: seq![(None, "A"@, "7"@, false), (None, "B"@, "8"@, false), (None, "C"@, "9"@, true), (None, "D"@, "11"@, false)] }
    } else if i == 2 {
        SeedQuestionView { question_id: None, section_label: "A"@, question_number: Some(decimal_text(3)), topic_id: t.number_ops, subtopic_id: None, stem: "Find the highest common factor (HCF) of 18 and 24."@, question_format: "mcq"@, primary_pedagogic_function: None, explanation_text: Some("The common factors are 1, 2, 3 and 6. The highest is 6."@), difficulty_level: Some(4300i64), marks: Some(1i64), options: seq![(None, "A"@, "3"@, false), (None, "B"@, "6"@, true), (None, "C"@, "9"@, false), (None, "D"@, "12"@, false)] }
    } else if i == 3 {
        SeedQuestionView { question_id: None, section_label: "A"@, question_number: Some(decimal_text(4)), topic_id: t.fractions, subtopic_id: None, stem: "Find the percentage increase when a quantity rises from 80 to 100."@, question_format: "mcq"@, primary_pedagogic_function: None, explanation_text: Some("Increase = 20. Percentage increase = (20/80) x 100 = 25%."@), difficulty_level: Some(4500i64), marks: Some(1i64), options: seq![(None, "A"@, "20%"@, false), (None, "B"@, "25%"@, true), (None, "C"@, "40%"@, false), (None, "D"@, "80%"@, false)] }
    } else if i == 4 {
        SeedQuestionView { question_id: None, section_label: "A"@, question_number: Some(decimal_text(5)), topic_id: t.powers, subtopic_id: None, stem: "Evaluate (2^4 x 2) / 2^2."@, question_format: "mcq"@, primary_pedagogic_function: None, explanation_text: Some("2^4 x 2 = 16 x 2 = 32, and 32 / 4 = 8."@), difficulty_level: Some(4700i64), marks: Some(1i64), options: seq![(None, "A"@, "4"@, false), (None, "B"@, "6"@, false), (None, "C"@, "8"@, true), (None, "D"@, "16"@, false)] }
    } else if i == 5 {
        SeedQuestionView { question_id: None, section_label: "A"@, question_number: Some(decimal_text(6)), topic_id: t.measurement, subtopic_id: None, stem: "Find the volume of a cube of side 4 cm."@, question_format: "mcq"@, primary_pedagogic_function: None, explanation_text: Some("Volume of a cube = side x side x side = 4 x 4 x 4 = 64 cm^3."@), difficulty_level: Some(3900i64), marks: Some(1i64), options: seq![(None, "A"@, "16 cm^3"@, false), (None, "B"@, "32 cm^3"@, false), (None, "C"@, "64 cm^3"@, true), (None, "D"@, "128 cm^3"@, false)] }
    } else if i == 6 {
        SeedQuestionView { question_id: None, section_label: "A"@, question_number: Some(decimal_text(7)), topic_id: t.ratios, subtopic_id: None, stem: "If 5 pens cost GHC15, how much will 8 pens cost at the same rate?"@, question_format: "mcq"@, primary_pedagogic_function: None, explanation_text: Some("One pen costs GHC3, so 8 pens cost 8 x 3 = GHC24."@), difficulty_level: Some(4300i64), marks: Some(1i64), options: seq![(None, "A"@, "GHC18"@, false), (None, "B"@, "GHC20"@, false), (None, "C"@, "GHC24"@, true), (None, "D"@, "GHC30"@, false)] }
    } else if i == 7 {
        SeedQuestionView { question_id: None, section_label: "A"@, question_number: Some(decimal_text(8)), topic_id: t.probability, subtopic_id: None, stem: "What is the probability of getting an even number when a fair die is thrown once?"@, question_format: "mcq"@, primary_pedagogic_function: None, explanation_text: Some("The even outcomes are 2, 4 and 6, so there are 3 favourable outcomes out of 6. That simplifies to 1/2."@), difficulty_level: Some(3600i64), marks: Some(1i64), options: seq![(None, "A"@, "1/3"@, false), (None, "B"@, "1/2"@, true), (None, "C"@, "2/3"@, false), (None, "D"@, "3/2"@, false)] }
    } else if i == 8 {
        SeedQuestionView { question_id: None, section_label: "A"@, question_number: Some(decimal_text(9)), topic_id: t.measurement, subtopic_id: None, stem: "Find the sum of the interior angles of a quadrilateral."@, question_format: "mcq"@, primary_pedagogic_function: None, explanation_text: Some("A quadrilateral can be split into two triangles, so the total is 2 x 180 = 360 degrees."@), difficulty_level: Some(3400i64), marks: Some(1i64), options: seq![(None, "A"@, "180 degrees"@, false), (None, "B"@, "270 degrees"@, false), (None, "C"@, "360 degrees"@, true), (None, "D"@, "540 degrees"@, false)] }
    } else if i == 9 {
        SeedQuestionView { question_id: None, section_label: "A"@, question_number: Some(decimal_text(10)), topic_id: t.data, subtopic_id: None, stem: "Find the mode of 2, 3, 3, 4, 5, 5, 5 and 6."@, question_format: "mcq"@, primary_pedagogic_function: None, explanation_text: Some("The value 5 appears most often, so the mode is 5."@), difficulty_level: Some(3200i64), marks: Some(1i64), options: seq![(None, "A"@, "3"@, false), (None, "B"@, "4"@, false), (None, "C"@, "5"@, true), (None, "D"@, "6"@, false)] }
    } else if i == 10 {
        SeedQuestionView { question_id: None, section_label: "A"@, question_number: Some(decimal_text(11)), topic_id: t.number_ops, subtopic_id: None, stem: "Find the least common multiple (LCM) of 8 and 12."@, question_format: "mcq"@, primary_pedagogic_function: None, explanation_text: Some("The least common multiple of 8 and 12 is 24."@), difficulty_level: Some(3900i64), marks: Some(1i64), options: seq![(None, "A"@, "4"@, false), (None, "B"@, "12"@, false), (None, "C"@, "24"@, true), (None, "D"@, "48"@, false)] }
    } else if i == 11 {
        SeedQuestionView { question_id: None, section_label: "A"@, question_number: Some(decimal_text(12)), topic_id: t.fractions, subtopic_id: None, stem: "Express 0.625 as a percentage."@, question_format: "mcq"@, primary_pedagogic_function: None, explanation_text: Some("Multiply by 100 to get 62.5%."@), difficulty_level: Some(3600i64), marks: Some(1i64), options: seq![(None, "A"@, "6.25%"@, false), (None, "B"@, "62.5%"@, true), (None, "C"@, "625%"@, false), (None, "D"@, "0.625%"@, false)] }
    } else if i == 12 {
        SeedQuestionView { question_id: None, section_label: "A"@, question_number: Some(decimal_text(13)), topic_id: t.equations, subtopic_id: None, stem: "Solve 7k + 4 = 25."@, question_format: "mcq"@, primary_pedagogic_function: None, explanation_text: Some("Subtract 4 to get 7k = 21, then divide by 7."@), difficulty_level: Some(3900i64), marks: Some(1i64), options: seq![(None, "A"@, "2"@, false), (None, "B"@, "3"@, true), (None, "C"@, "4"@, false), (None, "D"@, "7"@, false)] }
    } else if i == 13 {
        SeedQuestionView { question_id: None, section_label: "A"@, question_number: Some(decimal_text(14)), topic_id: t.ratios, subtopic_id: None, stem: "Divide 54 in the ratio 4 : 5. What is the larger part?"@, question_format: "mcq"@, primary_pedagogic_function: None, explanation_text: Some("Total parts = 9, so one part is 54/9 = 6. The larger part is 5 x 6 = 30."@), difficulty_level: Some(4500i64), marks: Some(1i64), options: seq![(None, "A"@, "24"@, false), (None, "B"@, "27"@, false), (None, "C"@, "30"@, true), (None, "D"@, "36"@, false)] }
    } else if i == 14 {
        SeedQuestionView { question_id: None, section_label: "A"@, question_number: Some(decimal_text(15)), topic_id: t.measurement, subtopic_id: None, stem: "Find the circumference of a circle of radius 3.5 cm. Take pi = 22/7."@, question_format: "mcq"@, primary_pedagogic_function: None, explanation_text: Some("Circumference = 2pi r = 2 x (22/7) x 3.5 = 22 cm."@), difficulty_level: Some(4300i64), marks: Some(1i64), options: seq![(None, "A"@, "11 cm"@, false), (None, "B"@, "22 cm"@, true), (None, "C"@, "38.5 cm"@, false), (None, "D"@, "44 cm"@, false)] }
    } else if i == 15 {
        SeedQuestionView { question_id: None, section_label: "A"@, question_number: Some(decimal_text(16)), topic_id: t.data, subtopic_id: None, stem: "Find the mean of 5, 7, 10 and 13."@, question_format: "mcq"@, primary_pedagogic_function: None, explanation_text: Some("The sum is 35, and 35/4 = 8.75."@), difficulty_level: Some(3600i64), marks: Some(1i64), options: seq![(None, "A"@, "8"@, false), (None, "B"@, "8.5"@, false), (None, "C"@, "8.75"@, true), (None, "D"@, "9"@, false)] }
    } else if i == 16 {
        SeedQuestionView { question_id: None, section_label: "A"@, question_number: Some(decimal_text(17)), topic_id: t.probability, subtopic_id: None, stem: "What is the probability of getting an odd number when a fair die is thrown once?"@, question_format: "mcq"@, primary_pedagogic_function: None, explanation_text: Some("The odd numbers are 1, 3 and 5, so the probability is 3/6 = 1/2."@), difficulty_level: Some(3200i64), marks: Some(1i64), options: seq![(None, "A"@, "1/3"@, false), (None, "B"@, "1/2"@, true), (None, "C"@, "2/3"@, false), (None, "D"@, "5/6"@, false)] }
    } else if i == 17 {
        SeedQuestionView { question_id: None, section_label: "A"@, question_number: Some(decimal_text(18)), topic_id: t.algebra, subtopic_id: None, stem: "Factorise 2x + 6."@, question_format: "mcq"@, primary_pedagogic_function: None, explanation_text: Some("Take out the common factor 2 to get 2(x + 3)."@), difficulty_level: Some(3500i64), marks: Some(1i64), options: seq![(None, "A"@, "2(x + 3)"@, true), (None, "B"@, "3(x + 2)"@, false), (None, "C"@, "2(x + 6)"@, false), (None, "D"@, "x(2 + 6)"@, false)] }
    } else if i == 18 {
        SeedQuestionView { question_id: None, section_label: "A"@, question_number: Some(decimal_text(19)), topic_id: t.powers, subtopic_id: None, stem: "Evaluate 5^0."@, question_format: "mcq"@, primary_pedagogic_function: None, explanation_text: Some("Any non-zero number raised to the power 0 is 1."@), difficulty_level: Some(2800i64), marks: Some(1i64), options: seq![(None, "A"@, "0"@, false), (None, "B"@, "1"@, true), (None, "C"@, "5"@, false), (None, "D"@, "25"@, false)] }
    } else if i == 19 {
        SeedQuestionView { question_id: None, section_label: "A"@, question_number: Some(decimal_text(20)), topic_id: t.measurement, subtopic_id: None, stem: "Find the area of a rectangle of length 15 cm and width 9 cm."@, question_format: "mcq"@, primary_pedagogic_function: None, explanation_text: Some("Area = length x width = 15 x 9 = 135 cm^2."@), difficulty_level: Some(3200i64), marks: Some(1i64), options: seq![(None, "A"@, "24 cm^2"@, false), (None, "B"@, "90 cm^2"@, false), (None, "C"@, "135 cm^2"@, true), (None, "D"@, "270 cm^2"@, false)] }
    } else if i == 20 {
        SeedQuestionView { question_id: None, section_label: "A"@, question_number: Some(decimal_text(21)), topic_id: t.fractions, subtopic_id: None, stem: "Evaluate 5/6 - 1/4."@, question_format: "mcq"@, primary_pedagogic_function: None, explanation_text: Some("Use a common denominator of 12: 10/12 - 3/12 = 7/12."@), difficulty_level: Some(4800i64), marks: Some(1i64), options: seq![(None, "A"@, "1/2"@, false), (None, "B"@, "7/12"@, true), (None, "C"@, "4/12"@, false), (None, "D"@, "9/12"@, false)] }
    } else if i == 21 {
        SeedQuestionView { question_id: None, section_label: "A"@, question_number: Some(decimal_text(22)), topic_id: t.number_ops, subtopic_id: None, stem: "Evaluate 0.48 / 0.06."@, question_format: "mcq"@, primary_pedagogic_function: None, explanation_text: Some("Multiply both numbers by 100 to get 48/6 = 8."@), difficulty_level: Some(4200i64), marks: Some(1i64), options: seq![(None, "A"@, "0.8"@, false), (None, "B"@, "6"@, false), (None, "C"@, "8"@, true), (None, "D"@, "80"@, false)] }
    } else if i == 22 {
        SeedQuestionView { question_id: None, section_label: "A"@, question_number: Some(decimal_text(23)), topic_id: t.ratios, subtopic_id: None, stem: "Find the simple interest on GHC400 for 3 years at 4% per annum."@, question_format: "mcq"@, primary_pedagogic_function: None, explanation_text: Some("Simple interest = 400 x 4 x 3 / 100 = 48."@), difficulty_level: Some(4500i64), marks: Some(1i64), options: seq![(None, "A"@, "GHC12"@, false), (None, "B"@, "GHC16"@, false), (None, "C"@, "GHC48"@, true), (None, "D"@, "GHC448"@, false)] }
    } else if i == 23 {
        SeedQuestionView { question_id: None, section_label: "A"@, question_number: Some(decimal_text(24)), topic_id: t.measurement, subtopic_id: None, stem: "Find the volume of a cuboid measuring 5 cm by 4 cm by 3 cm."@, question_format: "mcq"@, primary_pedagogic_function: None, explanation_text: Some("Volume = length x width x height = 5 x 4 x 3 = 60 cm^3."@), difficulty_level: Some(3300i64), marks: Some(1i64), options: seq![(None, "A"@, "12 cm^3"@, false), (None, "B"@, "20 cm^3"@, false), (None, "C"@, "60 cm^3"@, true), (None, "D"@, "120 cm^3"@, false)] }
    } else if i == 24 {
        SeedQuestionView { question_id: None, section_label: "A"@, question_number: Some(decimal_text(25)), topic_id: t.data, subtopic_id: None, stem: "Find the median of 2, 4, 5, 7, 9 and 10."@, question_format: "mcq"@, primary_pedagogic_function: None, explanation_text: Some("The middle two values are 5 and 7, so the median is (5 + 7)/2 = 6."@), difficulty_level: Some(4300i64), marks: Some(1i64), options: seq![(None, "A"@, "5"@, false), (None, "B"@, "6"@, true), (None, "C"@, "7"@, false), (None, "D"@, "8"@, false)] }
    } else if i == 25 {
        SeedQuestionView { question_id: None, section_label: "A"@, question_number: Some(decimal_text(26)), topic_id: t.probability, subtopic_id: None, stem: "A bag contains 4 green balls and 1 yellow ball. What is the probability of picking the yellow ball?"@, question_format: "mcq"@, primary_pedagogic_function: None, explanation_text: Some("There is 1 yellow ball out of 5 balls altogether, so the probability is 1/5."@), difficulty_level: Some(3100i64), marks: Some(1i64), options: seq![(None, "A"@, "1/5"@, true), (None, "B"@, "1/4"@, false), (None, "C"@, "4/5"@, false), (None, "D"@, "5"@, false)] }
    } else if i == 26 {
        SeedQuestionView { question_id: None, section_label: "A"@, question_number: Some(decimal_text(27)), topic_id: t.algebra, subtopic_id: None, stem: "Expand (x + 3)(x + 2)."@, question_format: "mcq"@, primary_pedagogic_function: None, explanation_text: Some("Multiply term by term to get x^2 + 2x + 3x + 6 = x^2 + 5x + 6."@), difficulty_level: Some(5200i64), marks: Some(1i64), options: seq![(None, "A"@, "x^2 + 6x + 5"@, false), (None, "B"@, "x^2 + 5x + 6"@, true), (None, "C"@, "x^2 + x + 6"@, false), (None, "D"@, "2x^2 + 5x + 6"@, false)] }
    } else if i == 27 {
        SeedQuestionView { question_id: None, section_label: "A"@, question_number: Some(decimal_text(28)), topic_id: t.powers, subtopic_id: None, stem: "Find the cube root of 64."@, question_format: "mcq"@, primary_pedagogic_function: None, explanation_text: Some("4 x 4 x 4 = 64, so the cube root is 4."@), difficulty_level: Some(3000i64), marks: Some(1i64), options: seq![(None, "A"@, "3"@, false), (None, "B"@, "4"@, true), (None, "C"@, "6"@, false), (None, "D"@, "8"@, false)] }
    } else if i == 28 {
        SeedQuestionView { question_id: None, section_label: "A"@, question_number: Some(decimal_text(29)), topic_id: t.equations, subtopic_id: None, stem: "Solve 9 - m = 4."@, question_format: "mcq"@, primary_pedagogic_function: None, explanation_text: Some("Subtract 4 from 9 to get m = 5."@), difficulty_level: Some(3000i64), marks: Some(1i64), options: seq![(None, "A"@, "4"@, false), (None, "B"@, "5"@, true), (None, "C"@, "9"@, false), (None, "D"@, "13"@, false)] }
    } else if i == 29 {
        SeedQuestionView { question_id: None, section_label: "A"@, question_number: Some(decimal_text(30)), topic_id: t.measurement, subtopic_id: None, stem: "Two angles of a triangle are 35 degrees and 65 degrees. Find the third angle."@, question_format: "mcq"@, primary_pedagogic_function: None, explanation_text: Some("The angles in a triangle add up to 180 degrees, so the third angle is 180 - (35 + 65) = 80 degrees."@), difficulty_level: Some(3500i64), marks: Some(1i64), options: seq![(None, "A"@, "70 degrees"@, false), (None, "B"@, "75 degrees"@, false), (None, "C"@, "80 degrees"@, true), (None, "D"@, "90 degrees"@, false)] }
    } else if i == 30 {
        SeedQuestionView { question_id: None, section_label: "A"@, question_number: Some(decimal_text(31)), topic_id: t.fractions, subtopic_id: None, stem: "Find 30% of 250."@, question_format: "mcq"@, primary_pedagogic_function: None, explanation_text: Some("30% of 250 = 30/100 x 250 = 75."@), difficulty_level: Some(3400i64), marks: Some(1i64), options: seq![(None, "A"@, "25"@, false), (None, "B"@, "50"@, false), (None, "C"@, "75"@, true), (None, "D"@, "125"@, false)] }
    } else if i == 31 {
        SeedQuestionView { question_id: None, section_label: "A"@, question_number: Some(decimal_text(32)), topic_id: t.number_ops, subtopic_id: None, stem: "Find the highest common factor (HCF) of 42 and 56."@, question_format: "mcq"@, primary_pedagogic_function: None, explanation_text: Some("The common factors of 42 and 56 include 1, 2, 7 and 14. The highest is 14."@), difficulty_level: Some(4300i64), marks: Some(1i64), options: seq![(None, "A"@, "7"@, false), (None, "B"@, "12"@, false), (None, "C"@, "14"@, true), (None, "D"@, "28"@, false)] }
    } else if i == 32 {
        SeedQuestionView { question_id: None, section_label: "A"@, question_number: Some(decimal_text(33)), topic_id: t.ratios, subtopic_id: None, stem: "On a map drawn to a scale of 1 : 100,000, the distance between two villages is 3 cm. Find the actual distance."@, question_format: "mcq"@, primary_pedagogic_function: None, explanation_text: Some("Actual distance = 3 x 100,000 cm = 300,000 cm = 3 km."@), difficulty_level: Some(5000i64), marks: Some(1i64), options: seq![(None, "A"@, "0.3 km"@, false), (None, "B"@, "3 km"@, true), (None, "C"@, "30 km"@, false), (None, "D"@, "300 km"@, false)] }
    } else if i == 33 {
        SeedQuestionView { question_id: None, section_label: "A"@, question_number: Some(decimal_text(34)), topic_id: t.data, subtopic_id: None, stem: "Find the mode of 7, 8, 8, 9, 10, 10, 10 and 11."@, question_format: "mcq"@, primary_pedagogic_function: None, explanation_text: Some("10 appears three times, more than any other number."@), difficulty_level: Some(3000i64), marks: Some(1i64), options: seq![(None, "A"@, "8"@, false), (None, "B"@, "9"@, false), (None, "C"@, "10"@, true), (None, "D"@, "11"@, false)] }
    } else if i == 34 {
        SeedQuestionView { question_id: None, section_label: "A"@, question_number: Some(decimal_text(35)), topic_id: t.probability, subtopic_id: None, stem: "What is the probability of obtaining a prime number when a fair die is thrown once?"@, question_format: "mcq"@, primary_pedagogic_function: None, explanation_text: Some("The prime numbers on a die are 2, 3 and 5. So the probability is 3/6 = 1/2."@), difficulty_level: Some(3500i64), marks: Some(1i64), options: seq![(None, "A"@, "1/3"@, false), (None, "B"@, "1/2"@, true), (None, "C"@, "2/3"@, false), (None, "D"@, "5/6"@, false)] }
    } else if i == 35 {
        SeedQuestionView { question_id: None, section_label: "A"@, question_number: Some(decimal_text(36)), topic_id: t.algebra, subtopic_id: None, stem: "Evaluate 3p + 2 when p = 4."@, question_format: "mcq"@, primary_pedagogic_function: None, explanation_text: Some("Substitute p = 4 to get 3(4) + 2 = 14."@), difficulty_level: Some(3000i64), marks: Some(1i64), options: seq![(None, "A"@, "10"@, false), (None, "B"@, "12"@, false), (None, "C"@, "14"@, true), (None, "D"@, "18"@, false)] }
    } else if i == 36 {
        SeedQuestionView { question_id: None, section_label: "A"@, question_number: Some(decimal_text(37)), topic_id: t.measurement, subtopic_id: None, stem: "Find the area of a trapezium with parallel sides 8 cm and 12 cm and height 5 cm."@, question_format: "mcq"@, primary_pedagogic_function: None, explanation_text: Some("Area = 1/2 x (8 + 12) x 5 = 50 cm^2."@), difficulty_level: Some(4800i64), marks: Some(1i64), options: seq![(None, "A"@, "20 cm^2"@, false), (None, "B"@, "40 cm^2"@, false), (None, "C"@, "50 cm^2"@, true), (None, "D"@, "100 cm^2"@, false)] }
    } else if i == 37 {
        SeedQuestionView { question_id: None, section_label: "A"@, question_number: Some(decimal_text(38)), topic_id: t.fractions, subtopic_id: None, stem: "Find the reciprocal of 2/7."@, question_format: "mcq"@, primary_pedagogic_function: None, explanation_text: Some("The reciprocal is obtained by inverting the fraction, giving 7/2."@), difficulty_level: Some(3100i64), marks: Some(1i64), options: seq![(None, "A"@, "2/7"@, false), (None, "B"@, "7/2"@, true), (None, "C"@, "5/7"@, false), (None, "D"@, "14/7"@, false)] }
    } else if i == 38 {
        SeedQuestionView { question_id: None, section_label: "A"@, question_number: Some(decimal_text(39)), topic_id: t.equations, subtopic_id: None, stem: "If 2a + 3 = 17, find a."@, question_format: "mcq"@, primary_pedagogic_function: None, explanation_text: Some("Subtract 3 to get 2a = 14, then divide by 2 to get a = 7."@), difficulty_level: Some(3500i64), marks: Some(1i64), options: seq![(None, "A"@, "5"@, false), (None, "B"@, "6"@, false), (None, "C"@, "7"@, true), (None, "D"@, "8"@, false)] }
    } else if i == 39 {
        SeedQuestionView { question_id: None, section_label: "A"@, question_number: Some(decimal_text(40)), topic_id: t.measurement, subtopic_id: None, stem: "Convert 1.8 litres to millilitres."@, question_format: "mcq"@, primary_pedagogic_function: None, explanation_text: Some("1 litre = 1000 mL, so 1.8 litres = 1800 mL."@), difficulty_level: Some(2800i64), marks: Some(1i64), options: seq![(None, "A"@, "180 mL"@, false), (None, "B"@, "1800 mL"@, true), (None, "C"@, "18,000 mL"@, false), (None, "D"@, "0.18 mL"@, false)] }
    } else if i == 40 {
        SeedQuestionView { question_id: None, section_label: "B"@, question_number: Some(decimal_text(1)), topic_id: t.ratios, subtopic_id: None, stem: "Divide GHC840 among Kofi, Ama and Yaw in the ratio 3:4:5."@, question_format: "short_answer"@, primary_pedagogic_function: None, explanation_text: Some("Total parts = 3 + 4 + 5 = 12. One part = 840/12 = 70. Shares: Kofi = GHC210, Ama = GHC280, Yaw = GHC350."@), difficulty_level: Some(5200i64), marks: Some(6i64), options: Seq::empty() }
    } else if i == 41 {
        SeedQuestionView { question_id: None, section_label: "B"@, question_number: Some(decimal_text(2)), topic_id: t.equations, subtopic_id: None, stem: "A taxi charges a fixed amount of GHC6 plus GHC2 for each kilometre travelled. If Ama paid GHC26, how many kilometres did she travel?"@, question_format: "short_answer"@, primary_pedagogic_function: None, explanation_text: Some("Let the distance be x km. Then 6 + 2x = 26, so 2x = 20 and x = 10 km."@), difficulty_level: Some(5000i64), marks: Some(5i64), options: Seq::empty() }
    } else if i == 42 {
        SeedQuestionView { question_id: None, section_label: "B"@, question_number: Some(decimal_text(3)), topic_id: t.measurement, subtopic_id: None, stem: "A trapezium has parallel sides 10 cm and 16 cm and height 7 cm. Find its area."@, question_format: "short_answer"@, primary_pedagogic_function: None, explanation_text: Some("Area of a trapezium = 1/2 x (sum of parallel sides) x height = 1/2 x (10 + 16) x 7 = 91 cm^2."@), difficulty_level: Some(5600i64), marks: Some(5i64), options: Seq::empty() }
    } else {
        SeedQuestionView { question_id: None, section_label: "B"@, question_number: Some(decimal_text(4)), topic_id: t.data, subtopic_id: None, stem: "The table below shows the number of books read by a group of students.\n1 book: 3 students\n2 books: 5 students\n3 books: 4 students\n4 books: 2 students\nFind the total number of students and the mean number of books read."@, question_format: "short_answer"@, primary_pedagogic_function: None, explanation_text: Some("Total students = 3 + 5 + 4 + 2 = 14. Total books = (1 x 3) + (2 x 5) + (3 x 4) + (4 x 2) = 33. Mean = 33/14 = 2.36 books, correct to 2 decimal places."@), difficulty_level: Some(5700i64), marks: Some(6i64), options: Seq::empty() }
    }
}

/// Question `i` of the paper of the given year.
pub open spec fn seed_question(year: int, i: int, t: SeedTopicIds) -> SeedQuestionView {
    if year == 2023 { seed_2023_question(i, t) } else { seed_2022_question(i, t) }
}

/// The answer that each multiple-choice question of the 2023 practice paper works out,
/// by question index from zero.
pub open spec fn seed_2023_answer(i: int) -> Seq<char> {
    if i == 0 {
        "3/4"@
    } else if i == 1 {
        "40"@
    } else if i == 2 {
        "5"@
    } else if i == 3 {
        "15"@
    } else if i == 4 {
        "154 cm^2"@
    } else if i == 5 {
        "7.5"@
    } else if i == 6 {
        "60"@
    } else if i == 7 {
        "3/5"@
    } else if i == 8 {
        "6x - 8"@
    } else if i == 9 {
        "100 degrees"@
    } else if i == 10 {
        "36"@
    } else if i == 11 {
        "0.45"@
    } else if i == 12 {
        "25"@
    } else if i == 13 {
        "(x + 2)(x + 3)"@
    } else if i == 14 {
        "7"@
    } else if i == 15 {
        "44 cm"@
    } else if i == 16 {
        "7"@
    } else if i == 17 {
        "1/2"@
    } else if i == 18 {
        "2 km"@
    } else if i == 19 {
        "54 cm^2"@
    } else if i == 20 {
        "17/12"@
    } else if i == 21 {
        "3a + 7"@
    } else if i == 22 {
        "7"@
    } else if i == 23 {
        "GHC30"@
    } else if i == 24 {
        "36 cm"@
    } else if i == 25 {
        "9"@
    } else if i == 26 {
        "1/13"@
    } else if i == 27 {
        "12"@
    } else if i == 28 {
        "21"@
    } else if i == 29 {
        "308 cm^2"@
    } else if i == 30 {
        "1 1/4"@
    } else if i == 31 {
        "7"@
    } else if i == 32 {
        "27.5"@
    } else if i == 33 {
        "42"@
    } else if i == 34 {
        "250 cm"@
    } else if i == 35 {
        "11"@
    } else if i == 36 {
        "3/8"@
    } else if i == 37 {
        "7"@
    } else if i == 38 {
        "55 degrees"@
    } else {
        "40"@
    }
}

/// The answer that each multiple-choice question of the 2022 practice paper works out,
/// by question index from zero.
pub open spec fn seed_2022_answer(i: int) -> Seq<char> {
    if i == 0 {
        "3/8"@
    } else if i == 1 {
        "9"@
    } else if i == 2 {
        "6"@
    } else if i == 3 {
        "25%"@
    } else if i == 4 {
        "8"@
    } else if i == 5 {
        "64 cm^3"@
    } else if i == 6 {
        "GHC24"@
    } else if i == 7 {
        "1/2"@
    } else if i == 8 {
        "360 degrees"@
    } else if i == 9 {
        "5"@
    } else if i == 10 {
        "24"@
    } else if i == 11 {
        "62.5%"@
    } else if i == 12 {
        "3"@
    } else if i == 13 {
        "30"@
    } else if i == 14 {
        "22 cm"@
    } else if i == 15 {
        "8.75"@
    } else if i == 16 {
        "1/2"@
    } else if i == 17 {
        "2(x + 3)"@
    } else if i == 18 {
        "1"@
    } else if i == 19 {
        "135 cm^2"@
    } else if i == 20 {
        "7/12"@
    } else if i == 21 {
        "8"@
    } else if i == 22 {
        "GHC48"@
    } else if i == 23 {
        "60 cm^3"@
    } else if i == 24 {
        "6"@
    } else if i == 25 {
        "1/5"@
    } else if i == 26 {
        "x^2 + 5x + 6"@
    } else if i == 27 {
        "4"@
    } else if i == 28 {
        "5"@
    } else if i == 29 {
        "80 degrees"@
    } else if i == 30 {
        "75"@
    } else if i == 31 {
        "14"@
    } else if i == 32 {
        "3 km"@
    } else if i == 33 {
        "10"@
    } else if i == 34 {
        "1/2"@
    } else if i == 35 {
        "14"@
    } else if i == 36 {
        "50 cm^2"@
    } else if i == 37 {
        "7/2"@
    } else if i == 38 {
        "7"@
    } else {
        "1800 mL"@
    }
}

/// The answer that multiple-choice question `i` of the paper of the given year works out.
pub open spec fn seed_answer(year: int, i: int) -> Seq<char> {
    if year == 2023 { seed_2023_answer(i) } else { seed_2022_answer(i) }
}

/// The questions so far are the first questions of the paper of the given year.
pub open spec fn seed_prefix_matches(qs: Seq<AdminPastPaperQuestionInput>, year: int, t: SeedTopicIds) -> bool {
    forall|i: int| 0 <= i < qs.len() ==> question_view(#[trigger] qs[i]) == seed_question(year, i, t)
}

fn push_seed_question(
    qs: &mut Vec<AdminPastPaperQuestionInput>,
    q: AdminPastPaperQuestionInput,
    topics: &SeedTopicIds,
    Ghost(year): Ghost<int>,
)
    requires
        seed_paper_ok(old(qs)@, *topics),
        seed_prefix_matches(old(qs)@, year, *topics),
        question_view(q) == seed_question(year, old(qs)@.len() as int, *topics),
        old(qs)@.len() < 44,
        if old(qs)@.len() < seed_mcq_count() {
            seed_mcq_ok(q, old(qs)@.len() as int + 1, *topics)
        } else {
            seed_theory_ok(q, old(qs)@.len() - seed_mcq_count() + 1, *topics)
        },
    ensures
        final(qs)@ == old(qs)@.push(q),
        seed_paper_ok(final(qs)@, *topics),
        seed_prefix_matches(final(qs)@, year, *topics),
{
    let ghost before = qs@;
    qs.push(q);
    assert forall|i: int| 0 <= i < qs@.len() implies question_view(#[trigger] qs@[i]) == seed_question(year, i, *topics) by {
        if i < before.len() {
            assert(qs@[i] == before[i]);
        }
    }
    assert forall|i: int| 0 <= i < qs@.len() implies (if i < seed_mcq_count() {
        seed_mcq_ok(#[trigger] qs@[i], i + 1, *topics)
    } else {
        seed_theory_ok(qs@[i], i - seed_mcq_count() + 1, *topics)
    }) by {
        if i < before.len() {
            assert(qs@[i] == before[i]);
        }
    }
}

/// The 2023 practice paper, question for question as `seed_2023_question` lists it:
/// forty multiple-choice questions in section A, then four written questions in section B.
pub fn build_2023_questions(topics: &SeedTopicIds) -> (r: Vec<AdminPastPaperQuestionInput>)
    ensures
        r@.len() == 44,
        seed_paper_ok(r@, *topics),
        forall|i: int| 0 <= i < r@.len() ==> question_view(#[trigger] r@[i]) == seed_2023_question(i, *topics),
{
    let mut qs: Vec<AdminPastPaperQuestionInput> = Vec::new();
    push_seed_question(
        &mut qs,
        mcq(
            "A",
            1,
            topics.fractions,
            "Simplify 15/20 to its lowest terms.",
            "Divide the numerator and denominator by 5 to get 3/4.",
            3600,
            choices(
                option("A", "3/4", true),
                option("B", "5/4", false),
                option("C", "2/5", false),
                option("D", "4/3", false),
            ),
        ),
        topics,
        Ghost(2023int),
    );
    push_seed_question(
        &mut qs,
        mcq(
            "A",
            2,
            topics.fractions,
            "Find 25% of 160.",
            "25% is one quarter, and one quarter of 160 is 40.",
            3400,
            choices(
                option("A", "20", false),
                option("B", "40", true),
                option("C", "60", false),
                option("D", "80", false),
            ),
        ),
        topics,
        Ghost(2023int),
    );
    push_seed_question(
        &mut qs,
        mcq(
            "A",
            3,
            topics.equations,
            "Solve 3x + 5 = 20.",
            "Subtract 5 from both sides to get 3x = 15, then divide by 3.",
            4300,
            choices(
                option("A", "3", false),
                option("B", "4", false),
                option("C", "5", true),
                option("D", "8", false),
            ),
        ),
        topics,
        Ghost(2023int),
    );
    push_seed_question(
        &mut qs,
        mcq(
            "A",
            4,
            topics.ratios,
            "A class has boys and girls in the ratio 3:5. If there are 40 students altogether, how many are boys?",
            "The total number of parts is 8, so each part is 40/8 = 5. Boys are 3 parts: 3 x 5 = 15.",
            4700,
            choices(
                option("A", "12", false),
                option("B", "15", true),
                option("C", "20", false),
                option("D", "25", false),
            ),
        ),
        topics,
        Ghost(2023int),
    );
    push_seed_question(
        &mut qs,
        mcq(
            "A",
            5,
            topics.measurement,
            "Find the area of a circle of radius 7 cm. Take pi = 22/7.",
            "Area = pi r^2 = (22/7) x 7 x 7 = 154 cm^2.",
            5200,
            choices(
                option("A", "44 cm^2", false),
                option("B", "77 cm^2", false),
                option("C", "154 cm^2", true),
                option("D", "308 cm^2", false),
            ),
        ),
        topics,
        Ghost(2023int),
    );
    push_seed_question(
        &mut qs,
        mcq(
            "A",
            6,
            topics.data,
            "Find the mean of 4, 6, 8 and 12.",
            "Add the values to get 30 and divide by 4 to get 7.5.",
            3900,
            choices(
                option("A", "6.5", false),
                option("B", "7.0", false),
                option("C", "7.5", true),
                option("D", "8.0", false),
            ),
        ),
        topics,
        Ghost(2023int),
    );
    push_seed_question(
        &mut qs,
        mcq(
            "A",
            7,
            topics.ratios,
            "Find the simple interest on GHC600 for 2 years at 5% per annum.",
            "Simple interest = PRT/100 = 600 x 5 x 2 / 100 = 60.",
            4800,
            choices(
                option("A", "30", false),
                option("B", "60", true),
                option("C", "120", false),
                option("D", "660", false),
            ),
        ),
        topics,
        Ghost(2023int),
    );
    push_seed_question(
        &mut qs,
        mcq(
            "A",
            8,
            topics.probability,
            "A bag contains 3 red balls and 2 blue balls. What is the probability of picking a red ball at random?",
            "There are 5 balls altogether, and 3 of them are red, so the probability is 3/5.",
            4100,
            choices(
                option("A", "2/5", false),
                option("B", "3/5", true),
                option("C", "1/2", false),
                option("D", "5/3", false),
            ),
        ),
        topics,
        Ghost(2023int),
    );
    push_seed_question(
        &mut qs,
        mcq(
            "A",
            9,
            topics.algebra,
            "Expand 2(3x - 4).",
            "Multiply 2 by each term inside the bracket: 2 x 3x = 6x and 2 x -4 = -8.",
            4500,
            choices(
                option("A", "6x - 8", true),
                option("B", "6x - 4", false),
                option("C", "5x - 8", false),
                option("D", "6x + 8", false),
            ),
        ),
        topics,
        Ghost(2023int),
    );
    push_seed_question(
        &mut qs,
        mcq(
            "A",
            10,
            topics.measurement,
            "The exterior angle of a triangle is equal to the sum of the two opposite interior angles. If the two opposite interior angles are 35 degrees and 65 degrees, find the exterior angle.",
            "Add the two opposite interior angles: 35 + 65 = 100 degrees.",
            4200,
            choices(
                option("A", "90 degrees", false),
                option("B", "95 degrees", false),
                option("C", "100 degrees", true),
                option("D", "110 degrees", false),
            ),
        ),
        topics,
        Ghost(2023int),
    );
    push_seed_question(
        &mut qs,
        mcq(
            "A",
            11,
            topics.number_ops,
            "Find the least common multiple (LCM) of 12 and 18.",
            "The common multiple with the smallest value is 36.",
            4200,
            choices(
                option("A", "6", false),
                option("B", "24", false),
                option("C", "36", true),
                option("D", "54", false),
            ),
        ),
        topics,
        Ghost(2023int),
    );
    push_seed_question(
        &mut qs,
        mcq(
            "A",
            12,
            topics.fractions,
            "Which of the following is the greatest?",
            "Convert each to decimals: 2/5 = 0.4, 38% = 0.38, 0.45 = 0.45, and 0.405 = 0.405. So 0.45 is greatest.",
            4100,
            choices(
                option("A", "2/5", false),
                option("B", "38%", false),
                option("C", "0.45", true),
                option("D", "0.405", false),
            ),
        ),
        topics,
        Ghost(2023int),
    );
    push_seed_question(
        &mut qs,
        mcq(
            "A",
            13,
            topics.powers,
            "Evaluate 3^2 + 4^2.",
            "3 squared is 9 and 4 squared is 16. Their sum is 25.",
            3600,
            choices(
                option("A", "7", false),
                option("B", "13", false),
                option("C", "25", true),
                option("D", "49", false),
            ),
        ),
        topics,
        Ghost(2023int),
    );
    push_seed_question(
        &mut qs,
        mcq(
            "A",
            14,
            topics.algebra,
            "Factorise x^2 + 5x + 6.",
            "The factors of 6 that add up to 5 are 2 and 3, so the expression becomes (x + 2)(x + 3).",
            5200,
            choices(
                option("A", "(x + 1)(x + 6)", false),
                option("B", "(x + 2)(x + 3)", true),
                option("C", "(x - 2)(x - 3)", false),
                option("D", "(x + 5)(x + 1)", false),
            ),
        ),
        topics,
        Ghost(2023int),
    );
    push_seed_question(
        &mut qs,
        mcq(
            "A",
            15,
            topics.equations,
            "Solve 5x = 3x + 14.",
            "Subtract 3x from both sides to get 2x = 14, so x = 7.",
            4300,
            choices(
                option("A", "5", false),
                option("B", "7", true),
                option("C", "8", false),
                option("D", "14", false),
            ),
        ),
        topics,
        Ghost(2023int),
    );
    push_seed_question(
        &mut qs,
        mcq(
            "A",
            16,
            topics.measurement,
            "Find the circumference of a circle of diameter 14 cm. Take pi = 22/7.",
            "Circumference = pi x d = (22/7) x 14 = 44 cm.",
            4300,
            choices(
                option("A", "22 cm", false),
                option("B", "44 cm", true),
                option("C", "88 cm", false),
                option("D", "154 cm", false),
            ),
        ),
        topics,
        Ghost(2023int),
    );
    push_seed_question(
        &mut qs,
        mcq(
            "A",
            17,
            topics.data,
            "Find the median of 3, 5, 7, 8 and 12.",
            "The numbers are already arranged, and the middle value is 7.",
            3200,
            choices(
                option("A", "5", false),
                option("B", "7", true),
                option("C", "8", false),
                option("D", "12", false),
            ),
        ),
        topics,
        Ghost(2023int),
    );
    push_seed_question(
        &mut qs,
        mcq(
            "A",
            18,
            topics.probability,
            "What is the probability of not getting a head when a fair coin is tossed once?",
            "The only outcome that is not a head is a tail, so the probability is 1 out of 2.",
            3300,
            choices(
                option("A", "0", false),
                option("B", "1/4", false),
                option("C", "1/2", true),
                option("D", "1", false),
            ),
        ),
        topics,
        Ghost(2023int),
    );
    push_seed_question(
        &mut qs,
        mcq(
            "A",
            19,
            topics.ratios,
            "On a map drawn to a scale of 1 : 50,000, the distance between two towns is 4 cm. Find the actual distance.",
            "Actual distance = 4 x 50,000 cm = 200,000 cm = 2 km.",
            5200,
            choices(
                option("A", "0.2 km", false),
                option("B", "2 km", true),
                option("C", "20 km", false),
                option("D", "200 km", false),
            ),
        ),
        topics,
        Ghost(2023int),
    );
    push_seed_question(
        &mut qs,
        mcq(
            "A",
            20,
            topics.measurement,
            "Find the area of a triangle with base 12 cm and height 9 cm.",
            "Area = 1/2 x base x height = 1/2 x 12 x 9 = 54 cm^2.",
            4000,
            choices(
                option("A", "21 cm^2", false),
                option("B", "54 cm^2", true),
                option("C", "108 cm^2", false),
                option("D", "216 cm^2", false),
            ),
        ),
        topics,
        Ghost(2023int),
    );
    push_seed_question(
        &mut qs,
        mcq(
            "A",
            21,
            topics.fractions,
            "Evaluate 3/4 + 2/3.",
            "Use a common denominator of 12: 9/12 + 8/12 = 17/12.",
            5000,
            choices(
                option("A", "5/7", false),
                option("B", "17/12", true),
                option("C", "11/12", false),
                option("D", "19/12", false),
            ),
        ),
        topics,
        Ghost(2023int),
    );
    push_seed_question(
        &mut qs,
        mcq(
            "A",
            22,
            topics.algebra,
            "Simplify 5a - 2a + 7.",
            "Combine like terms: 5a - 2a = 3a, so the result is 3a + 7.",
            3600,
            choices(
                option("A", "7a", false),
                option("B", "3a + 7", true),
                option("C", "3a - 7", false),
                option("D", "5a + 5", false),
            ),
        ),
        topics,
        Ghost(2023int),
    );
    push_seed_question(
        &mut qs,
        mcq(
            "A",
            23,
            topics.number_ops,
            "What is the least prime factor of 91?",
            "91 = 7 x 13, so its least prime factor is 7.",
            4700,
            choices(
                option("A", "3", false),
                option("B", "5", false),
                option("C", "7", true),
                option("D", "13", false),
            ),
        ),
        topics,
        Ghost(2023int),
    );
    push_seed_question(
        &mut qs,
        mcq(
            "A",
            24,
            topics.ratios,
            "A shirt marked GHC200 is sold at a discount of 15%. Find the discount.",
            "Discount = 15/100 x 200 = GHC30.",
            4200,
            choices(
                option("A", "GHC15", false),
                option("B", "GHC20", false),
                option("C", "GHC30", true),
                option("D", "GHC170", false),
            ),
        ),
        topics,
        Ghost(2023int),
    );
    push_seed_question(
        &mut qs,
        mcq(
            "A",
            25,
            topics.measurement,
            "Find the perimeter of a rectangle of length 11 cm and width 7 cm.",
            "Perimeter = 2(l + w) = 2(11 + 7) = 36 cm.",
            3500,
            choices(
                option("A", "18 cm", false),
                option("B", "22 cm", false),
                option("C", "36 cm", true),
                option("D", "77 cm", false),
            ),
        ),
        topics,
        Ghost(2023int),
    );
    push_seed_question(
        &mut qs,
        mcq(
            "A",
            26,
            topics.data,
            "Find the range of 6, 9, 13, 15 and 8.",
            "Range = highest value - lowest value = 15 - 6 = 9.",
            3300,
            choices(
                option("A", "7", false),
                option("B", "8", false),
                option("C", "9", true),
                option("D", "21", false),
            ),
        ),
        topics,
        Ghost(2023int),
    );
    push_seed_question(
        &mut qs,
        mcq(
            "A",
            27,
            topics.probability,
            "A card is picked at random from a standard pack of 52 cards. What is the probability of picking an ace?",
            "There are 4 aces in 52 cards, so the probability is 4/52 = 1/13.",
            4500,
            choices(
                option("A", "1/4", false),
                option("B", "1/13", true),
                option("C", "4/13", false),
                option("D", "13/52", false),
            ),
        ),
        topics,
        Ghost(2023int),
    );
    push_seed_question(
        &mut qs,
        mcq(
            "A",
            28,
            topics.powers,
            "Find the square root of 144.",
            "12 x 12 = 144, so the square root is 12.",
            3100,
            choices(
                option("A", "10", false),
                option("B", "11", false),
                option("C", "12", true),
                option("D", "14", false),
            ),
        ),
        topics,
        Ghost(2023int),
    );
    push_seed_question(
        &mut qs,
        mcq(
            "A",
            29,
            topics.equations,
            "If y/3 = 7, find y.",
            "Multiply both sides by 3 to get y = 21.",
            3200,
            choices(
                option("A", "10", false),
                option("B", "18", false),
                option("C", "21", true),
                option("D", "28", false),
            ),
        ),
        topics,
        Ghost(2023int),
    );
    push_seed_question(
        &mut qs,
        mcq(
            "A",
            30,
            topics.measurement,
            "Find the area of a semicircle of radius 14 cm. Take pi = 22/7.",
            "Area of full circle = (22/7) x 14 x 14 = 616 cm^2. Half of this is 308 cm^2.",
            5500,
            choices(
                option("A", "154 cm^2", false),
                option("B", "308 cm^2", true),
                option("C", "616 cm^2", false),
                option("D", "44 cm^2", false),
            ),
        ),
        topics,
        Ghost(2023int),
    );
    push_seed_question(
        &mut qs,
        mcq(
            "A",
            31,
            topics.fractions,
            "Write 1.25 as a mixed number.",
            "1.25 = 1 + 0.25 = 1 1/4.",
            3400,
            choices(
                option("A", "1 1/4", true),
                option("B", "1 2/5", false),
                option("C", "1 1/5", false),
                option("D", "5/4", false),
            ),
        ),
        topics,
        Ghost(2023int),
    );
    push_seed_question(
        &mut qs,
        mcq(
            "A",
            32,
            topics.algebra,
            "Evaluate 2x - 3 when x = 5.",
            "Substitute x = 5: 2(5) - 3 = 10 - 3 = 7.",
            3000,
            choices(
                option("A", "5", false),
                option("B", "7", true),
                option("C", "10", false),
                option("D", "13", false),
            ),
        ),
        topics,
        Ghost(2023int),
    );
    push_seed_question(
        &mut qs,
        mcq(
            "A",
            33,
            topics.number_ops,
            "Multiply 2.75 by 10.",
            "Multiplying by 10 moves the decimal point one place to the right, giving 27.5.",
            2800,
            choices(
                option("A", "2.75", false),
                option("B", "7.25", false),
                option("C", "27.5", true),
                option("D", "275", false),
            ),
        ),
        topics,
        Ghost(2023int),
    );
    push_seed_question(
        &mut qs,
        mcq(
            "A",
            34,
            topics.ratios,
            "Divide 72 in the ratio 5 : 7. What is the larger share?",
            "Total parts = 12, so each part is 72/12 = 6. The larger share is 7 x 6 = 42.",
            4700,
            choices(
                option("A", "30", false),
                option("B", "35", false),
                option("C", "42", true),
                option("D", "49", false),
            ),
        ),
        topics,
        Ghost(2023int),
    );
    push_seed_question(
        &mut qs,
        mcq(
            "A",
            35,
            topics.measurement,
            "Convert 2.5 metres to centimetres.",
            "1 metre = 100 cm, so 2.5 m = 250 cm.",
            3000,
            choices(
                option("A", "25 cm", false),
                option("B", "250 cm", true),
                option("C", "2500 cm", false),
                option("D", "0.25 cm", false),
            ),
        ),
        topics,
        Ghost(2023int),
    );
    push_seed_question(
        &mut qs,
        mcq(
            "A",
            36,
            topics.data,
            "Find the mean of 9, 10, 11, 12 and 13.",
            "The sum is 55 and 55/5 = 11.",
            3100,
            choices(
                option("A", "10", false),
                option("B", "11", true),
                option("C", "12", false),
                option("D", "13", false),
            ),
        ),
        topics,
        Ghost(2023int),
    );
    push_seed_question(
        &mut qs,
        mcq(
            "A",
            37,
            topics.probability,
            "A spinner is numbered 1 to 8. What is the probability of landing on a number greater than 5?",
            "The numbers greater than 5 are 6, 7 and 8. So the probability is 3 out of 8.",
            3600,
            choices(
                option("A", "1/4", false),
                option("B", "3/8", true),
                option("C", "1/2", false),
                option("D", "5/8", false),
            ),
        ),
        topics,
        Ghost(2023int),
    );
    push_seed_question(
        &mut qs,
        mcq(
            "A",
            38,
            topics.equations,
            "Solve 4(x - 2) = 20.",
            "Divide by 4 to get x - 2 = 5, then add 2 to get x = 7.",
            4300,
            choices(
                option("A", "3", false),
                option("B", "5", false),
                option("C", "7", true),
                option("D", "8", false),
            ),
        ),
        topics,
        Ghost(2023int),
    );
    push_seed_question(
        &mut qs,
        mcq(
            "A",
            39,
            topics.measurement,
            "Find the supplement of 125 degrees.",
            "Angles on a straight line add up to 180 degrees, so the supplement is 180 - 125 = 55 degrees.",
            3200,
            choices(
                option("A", "45 degrees", false),
                option("B", "55 degrees", true),
                option("C", "65 degrees", false),
                option("D", "125 degrees", false),
            ),
        ),
        topics,
        Ghost(2023int),
    );
    push_seed_question(
        &mut qs,
        mcq(
            "A",
            40,
            topics.fractions,
            "If 3/5 of a number is 24, find the number.",
            "Let the number be n. Then 3/5 of n = 24, so n = 24 x 5/3 = 40.",
            5000,
            choices(
                option("A", "30", false),
                option("B", "35", false),
                option("C", "40", true),
                option("D", "45", false),
            ),
        ),
        topics,
        Ghost(2023int),
    );
    push_seed_question(
        &mut qs,
        theory(
            "B",
            1,
            topics.ratios,
            "A trader buys 36 exercise books at GHC8 each and sells each one at GHC10.50. Find the total profit and the percentage profit.",
            "short_answer",
            6,
            5600,
            "Cost price = 36 x 8 = GHC288. Selling price = 36 x 10.50 = GHC378. Profit = 378 - 288 = GHC90. Percentage profit = (90/288) x 100 = 31.25%.",
        ),
        topics,
        Ghost(2023int),
    );
    push_seed_question(
        &mut qs,
        theory(
            "B",
            2,
            topics.equations,
            "Solve the simultaneous equations x + y = 17 and x - y = 5.",
            "short_answer",
            6,
            5900,
            "Add the equations to get 2x = 22, so x = 11. Substitute into x + y = 17 to get y = 6.",
        ),
        topics,
        Ghost(2023int),
    );
    push_seed_question(
        &mut qs,
        theory(
            "B",
            3,
            topics.measurement,
            "A rectangular field measures 18 m by 12 m. A path 1 m wide is made all around the outside of the field. Find the area of the path.",
            "short_answer",
            5,
            6100,
            "Outer dimensions = 20 m by 14 m, so outer area = 280 m^2. Inner area = 18 x 12 = 216 m^2. Area of path = 280 - 216 = 64 m^2.",
        ),
        topics,
        Ghost(2023int),
    );
    push_seed_question(
        &mut qs,
        theory(
            "B",
            4,
            topics.data,
            "The marks scored by 8 students are 4, 7, 9, 6, 4, 8, 7 and 5. Find the mean, median and mode.",
            "short_answer",
            6,
            5400,
            "Sorted data: 4, 4, 5, 6, 7, 7, 8, 9. Mean = 50/8 = 6.25. Median = (6 + 7)/2 = 6.5. Mode = 4 and 7.",
        ),
        topics,
        Ghost(2023int),
    );
    qs
}

/// The 2022 practice paper, question for question as `seed_2022_question` lists it:
/// forty multiple-choice questions in section A, then four written questions in section B.
pub fn build_2022_questions(topics: &SeedTopicIds) -> (r: Vec<AdminPastPaperQuestionInput>)
    ensures
        r@.len() == 44,
        seed_paper_ok(r@, *topics),
        forall|i: int| 0 <= i < r@.len() ==> question_view(#[trigger] r@[i]) == seed_2022_question(i, *topics),
{
    let mut qs: Vec<AdminPastPaperQuestionInput> = Vec::new();
    push_seed_question(
        &mut qs,
        mcq(
            "A",
            1,
            topics.fractions,
            "Write 0.375 as a fraction in its simplest form.",
            "0.375 = 375/1000. Divide the numerator and denominator by 125 to get 3/8.",
            3800,
            choices(
                option("A", "3/5", false),
                option("B", "3/8", true),
                option("C", "5/8", false),
                option("D", "8/3", false),
            ),
        ),
        topics,
        Ghost(2022int),
    );
    push_seed_question(
        &mut qs,
        mcq(
            "A",
            2,
            topics.equations,
            "Solve 2y - 7 = 11.",
            "Add 7 to both sides to get 2y = 18, then divide by 2.",
            4100,
            choices(
                option("A", "7", false),
                option("B", "8", false),
                option("C", "9", true),
                option("D", "11", false),
            ),
        ),
        topics,
        Ghost(2022int),
    );
    push_seed_question(
        &mut qs,
        mcq(
            "A",
            3,
            topics.number_ops,
            "Find the highest common factor (HCF) of 18 and 24.",
            "The common factors are 1, 2, 3 and 6. The highest is 6.",
            4300,
            choices(
                option("A", "3", false),
                option("B", "6", true),
                option("C", "9", false),
                option("D", "12", false),
            ),
        ),
        topics,
        Ghost(2022int),
    );
    push_seed_question(
        &mut qs,
        mcq(
            "A",
            4,
            topics.fractions,
            "Find the percentage increase when a quantity rises from 80 to 100.",
            "Increase = 20. Percentage increase = (20/80) x 100 = 25%.",
            4500,
            choices(
                option("A", "20%", false),
                option("B", "25%", true),
                option("C", "40%", false),
                option("D", "80%", false),
            ),
        ),
        topics,
        Ghost(2022int),
    );
    push_seed_question(
        &mut qs,
        mcq(
            "A",
            5,
            topics.powers,
            "Evaluate (2^4 x 2) / 2^2.",
            "2^4 x 2 = 16 x 2 = 32, and 32 / 4 = 8.",
            4700,
            choices(
                option("A", "4", false),
                option("B", "6", false),
                option("C", "8", true),
                option("D", "16", false),
            ),
        ),
        topics,
        Ghost(2022int),
    );
    push_seed_question(
        &mut qs,
        mcq(
            "A",
            6,
            topics.measurement,
            "Find the volume of a cube of side 4 cm.",
            "Volume of a cube = side x side x side = 4 x 4 x 4 = 64 cm^3.",
            3900,
            choices(
                option("A", "16 cm^3", false),
                option("B", "32 cm^3", false),
                option("C", "64 cm^3", true),
                option("D", "128 cm^3", false),
            ),
        ),
        topics,
        Ghost(2022int),
    );
    push_seed_question(
        &mut qs,
        mcq(
            "A",
            7,
            topics.ratios,
            "If 5 pens cost GHC15, how much will 8 pens cost at the same rate?",
            "One pen costs GHC3, so 8 pens cost 8 x 3 = GHC24.",
            4300,
            choices(
                option("A", "GHC18", false),
                option("B", "GHC20", false),
                option("C", "GHC24", true),
                option("D", "GHC30", false),
            ),
        ),
        topics,
        Ghost(2022int),
    );
    push_seed_question(
        &mut qs,
        mcq(
            "A",
            8,
            topics.probability,
            "What is the probability of getting an even number when a fair die is thrown once?",
            "The even outcomes are 2, 4 and 6, so there are 3 favourable outcomes out of 6. That simplifies to 1/2.",
            3600,
            choices(
                option("A", "1/3", false),
                option("B", "1/2", true),
                option("C", "2/3", false),
                option("D", "3/2", false),
            ),
        ),
        topics,
        Ghost(2022int),
    );
    push_seed_question(
        &mut qs,
        mcq(
            "A",
            9,
            topics.measurement,
            "Find the sum of the interior angles of a quadrilateral.",
            "A quadrilateral can be split into two triangles, so the total is 2 x 180 = 360 degrees.",
            3400,
            choices(
                option("A", "180 degrees", false),
                option("B", "270 degrees", false),
                option("C", "360 degrees", true),
                option("D", "540 degrees", false),
            ),
        ),
        topics,
        Ghost(2022int),
    );
    push_seed_question(
        &mut qs,
        mcq(
            "A",
            10,
            topics.data,
            "Find the mode of 2, 3, 3, 4, 5, 5, 5 and 6.",
            "The value 5 appears most often, so the mode is 5.",
            3200,
            choices(
                option("A", "3", false),
                option("B", "4", false),
                option("C", "5", true),
                option("D", "6", false),
            ),
        ),
        topics,
        Ghost(2022int),
    );
    push_seed_question(
        &mut qs,
        mcq(
            "A",
            11,
            topics.number_ops,
            "Find the least common multiple (LCM) of 8 and 12.",
            "The least common multiple of 8 and 12 is 24.",
            3900,
            choices(
                option("A", "4", false),
                option("B", "12", false),
                option("C", "24", true),
                option("D", "48", false),
            ),
        ),
        topics,
        Ghost(2022int),
    );
    push_seed_question(
        &mut qs,
        mcq(
            "A",
            12,
            topics.fractions,
            "Express 0.625 as a percentage.",
            "Multiply by 100 to get 62.5%.",
            3600,
            choices(
                option("A", "6.25%", false),
                option("B", "62.5%", true),
                option("C", "625%", false),
                option("D", "0.625%", false),
            ),
        ),
        topics,
        Ghost(2022int),
    );
    push_seed_question(
        &mut qs,
        mcq(
            "A",
            13,
            topics.equations,
            "Solve 7k + 4 = 25.",
            "Subtract 4 to get 7k = 21, then divide by 7.",
            3900,
            choices(
                option("A", "2", false),
                option("B", "3", true),
                option("C", "4", false),
                option("D", "7", false),
            ),
        ),
        topics,
        Ghost(2022int),
    );
    push_seed_question(
        &mut qs,
        mcq(
            "A",
            14,
            topics.ratios,
            "Divide 54 in the ratio 4 : 5. What is the larger part?",
            "Total parts = 9, so one part is 54/9 = 6. The larger part is 5 x 6 = 30.",
            4500,
            choices(
                option("A", "24", false),
                option("B", "27", false),
                option("C", "30", true),
                option("D", "36", false),
            ),
        ),
        topics,
        Ghost(2022int),
    );
    push_seed_question(
        &mut qs,
        mcq(
            "A",
            15,
            topics.measurement,
            "Find the circumference of a circle of radius 3.5 cm. Take pi = 22/7.",
            "Circumference = 2pi r = 2 x (22/7) x 3.5 = 22 cm.",
            4300,
            choices(
                option("A", "11 cm", false),
                option("B", "22 cm", true),
                option("C", "38.5 cm", false),
                option("D", "44 cm", false),
            ),
        ),
        topics,
        Ghost(2022int),
    );
    push_seed_question(
        &mut qs,
        mcq(
            "A",
            16,
            topics.data,
            "Find the mean of 5, 7, 10 and 13.",
            "The sum is 35, and 35/4 = 8.75.",
            3600,
            choices(
                option("A", "8", false),
                option("B", "8.5", false),
                option("C", "8.75", true),
                option("D", "9", false),
            ),
        ),
        topics,
        Ghost(2022int),
    );
    push_seed_question(
        &mut qs,
        mcq(
            "A",
            17,
            topics.probability,
            "What is the probability of getting an odd number when a fair die is thrown once?",
            "The odd numbers are 1, 3 and 5, so the probability is 3/6 = 1/2.",
            3200,
            choices(
                option("A", "1/3", false),
                option("B", "1/2", true),
                option("C", "2/3", false),
                option("D", "5/6", false),
            ),
        ),
        topics,
        Ghost(2022int),
    );
    push_seed_question(
        &mut qs,
        mcq(
            "A",
            18,
            topics.algebra,
            "Factorise 2x + 6.",
            "Take out the common factor 2 to get 2(x + 3).",
            3500,
            choices(
                option("A", "2(x + 3)", true),
                option("B", "3(x + 2)", false),
                option("C", "2(x + 6)", false),
                option("D", "x(2 + 6)", false),
            ),
        ),
        topics,
        Ghost(2022int),
    );
    push_seed_question(
        &mut qs,
        mcq(
            "A",
            19,
            topics.powers,
            "Evaluate 5^0.",
            "Any non-zero number raised to the power 0 is 1.",
            2800,
            choices(
                option("A", "0", false),
                option("B", "1", true),
                option("C", "5", false),
                option("D", "25", false),
            ),
        ),
        topics,
        Ghost(2022int),
    );
    push_seed_question(
        &mut qs,
        mcq(
            "A",
            20,
            topics.measurement,
            "Find the area of a rectangle of length 15 cm and width 9 cm.",
            "Area = length x width = 15 x 9 = 135 cm^2.",
            3200,
            choices(
                option("A", "24 cm^2", false),
                option("B", "90 cm^2", false),
                option("C", "135 cm^2", true),
                option("D", "270 cm^2", false),
            ),
        ),
        topics,
        Ghost(2022int),
    );
    push_seed_question(
        &mut qs,
        mcq(
            "A",
            21,
            topics.fractions,
            "Evaluate 5/6 - 1/4.",
            "Use a common denominator of 12: 10/12 - 3/12 = 7/12.",
            4800,
            choices(
                option("A", "1/2", false),
                option("B", "7/12", true),
                option("C", "4/12", false),
                option("D", "9/12", false),
            ),
        ),
        topics,
        Ghost(2022int),
    );
    push_seed_question(
        &mut qs,
        mcq(
            "A",
            22,
            topics.number_ops,
            "Evaluate 0.48 / 0.06.",
            "Multiply both numbers by 100 to get 48/6 = 8.",
            4200,
            choices(
                option("A", "0.8", false),
                option("B", "6", false),
                option("C", "8", true),
                option("D", "80", false),
            ),
        ),
        topics,
        Ghost(2022int),
    );
    push_seed_question(
        &mut qs,
        mcq(
            "A",
            23,
            topics.ratios,
            "Find the simple interest on GHC400 for 3 years at 4% per annum.",
            "Simple interest = 400 x 4 x 3 / 100 = 48.",
            4500,
            choices(
                option("A", "GHC12", false),
                option("B", "GHC16", false),
                option("C", "GHC48", true),
                option("D", "GHC448", false),
            ),
        ),
        topics,
        Ghost(2022int),
    );
    push_seed_question(
        &mut qs,
        mcq(
            "A",
            24,
            topics.measurement,
            "Find the volume of a cuboid measuring 5 cm by 4 cm by 3 cm.",
            "Volume = length x width x height = 5 x 4 x 3 = 60 cm^3.",
            3300,
            choices(
                option("A", "12 cm^3", false),
                option("B", "20 cm^3", false),
                option("C", "60 cm^3", true),
                option("D", "120 cm^3", false),
            ),
        ),
        topics,
        Ghost(2022int),
    );
    push_seed_question(
        &mut qs,
        mcq(
            "A",
            25,
            topics.data,
            "Find the median of 2, 4, 5, 7, 9 and 10.",
            "The middle two values are 5 and 7, so the median is (5 + 7)/2 = 6.",
            4300,
            choices(
                option("A", "5", false),
                option("B", "6", true),
                option("C", "7", false),
                option("D", "8", false),
            ),
        ),
        topics,
        Ghost(2022int),
    );
    push_seed_question(
        &mut qs,
        mcq(
            "A",
            26,
            topics.probability,
            "A bag contains 4 green balls and 1 yellow ball. What is the probability of picking the yellow ball?",
            "There is 1 yellow ball out of 5 balls altogether, so the probability is 1/5.",
            3100,
            choices(
                option("A", "1/5", true),
                option("B", "1/4", false),
                option("C", "4/5", false),
                option("D", "5", false),
            ),
        ),
        topics,
        Ghost(2022int),
    );
    push_seed_question(
        &mut qs,
        mcq(
            "A",
            27,
            topics.algebra,
            "Expand (x + 3)(x + 2).",
            "Multiply term by term to get x^2 + 2x + 3x + 6 = x^2 + 5x + 6.",
            5200,
            choices(
                option("A", "x^2 + 6x + 5", false),
                option("B", "x^2 + 5x + 6", true),
                option("C", "x^2 + x + 6", false),
                option("D", "2x^2 + 5x + 6", false),
            ),
        ),
        topics,
        Ghost(2022int),
    );
    push_seed_question(
        &mut qs,
        mcq(
            "A",
            28,
            topics.powers,
            "Find the cube root of 64.",
            "4 x 4 x 4 = 64, so the cube root is 4.",
            3000,
            choices(
                option("A", "3", false),
                option("B", "4", true),
                option("C", "6", false),
                option("D", "8", false),
            ),
        ),
        topics,
        Ghost(2022int),
    );
    push_seed_question(
        &mut qs,
        mcq(
            "A",
            29,
            topics.equations,
            "Solve 9 - m = 4.",
            "Subtract 4 from 9 to get m = 5.",
            3000,
            choices(
                option("A", "4", false),
                option("B", "5", true),
                option("C", "9", false),
                option("D", "13", false),
            ),
        ),
        topics,
        Ghost(2022int),
    );
    push_seed_question(
        &mut qs,
        mcq(
            "A",
            30,
            topics.measurement,
            "Two angles of a triangle are 35 degrees and 65 degrees. Find the third angle.",
            "The angles in a triangle add up to 180 degrees, so the third angle is 180 - (35 + 65) = 80 degrees.",
            3500,
            choices(
                option("A", "70 degrees", false),
                option("B", "75 degrees", false),
                option("C", "80 degrees", true),
                option("D", "90 degrees", false),
            ),
        ),
        topics,
        Ghost(2022int),
    );
    push_seed_question(
        &mut qs,
        mcq(
            "A",
            31,
            topics.fractions,
            "Find 30% of 250.",
            "30% of 250 = 30/100 x 250 = 75.",
            3400,
            choices(
                option("A", "25", false),
                option("B", "50", false),
                option("C", "75", true),
                option("D", "125", false),
            ),
        ),
        topics,
        Ghost(2022int),
    );
    push_seed_question(
        &mut qs,
        mcq(
            "A",
            32,
            topics.number_ops,
            "Find the highest common factor (HCF) of 42 and 56.",
            "The common factors of 42 and 56 include 1, 2, 7 and 14. The highest is 14.",
            4300,
            choices(
                option("A", "7", false),
                option("B", "12", false),
                option("C", "14", true),
                option("D", "28", false),
            ),
        ),
        topics,
        Ghost(2022int),
    );
    push_seed_question(
        &mut qs,
        mcq(
            "A",
            33,
            topics.ratios,
            "On a map drawn to a scale of 1 : 100,000, the distance between two villages is 3 cm. Find the actual distance.",
            "Actual distance = 3 x 100,000 cm = 300,000 cm = 3 km.",
            5000,
            choices(
                option("A", "0.3 km", false),
                option("B", "3 km", true),
                option("C", "30 km", false),
                option("D", "300 km", false),
            ),
        ),
        topics,
        Ghost(2022int),
    );
    push_seed_question(
        &mut qs,
        mcq(
            "A",
            34,
            topics.data,
            "Find the mode of 7, 8, 8, 9, 10, 10, 10 and 11.",
            "10 appears three times, more than any other number.",
            3000,
            choices(
                option("A", "8", false),
                option("B", "9", false),
                option("C", "10", true),
                option("D", "11", false),
            ),
        ),
        topics,
        Ghost(2022int),
    );
    push_seed_question(
        &mut qs,
        mcq(
            "A",
            35,
            topics.probability,
            "What is the probability of obtaining a prime number when a fair die is thrown once?",
            "The prime numbers on a die are 2, 3 and 5. So the probability is 3/6 = 1/2.",
            3500,
            choices(
                option("A", "1/3", false),
                option("B", "1/2", true),
                option("C", "2/3", false),
                option("D", "5/6", false),
            ),
        ),
        topics,
        Ghost(2022int),
    );
    push_seed_question(
        &mut qs,
        mcq(
            "A",
            36,
            topics.algebra,
            "Evaluate 3p + 2 when p = 4.",
            "Substitute p = 4 to get 3(4) + 2 = 14.",
            3000,
            choices(
                option("A", "10", false),
                option("B", "12", false),
                option("C", "14", true),
                option("D", "18", false),
            ),
        ),
        topics,
        Ghost(2022int),
    );
    push_seed_question(
        &mut qs,
        mcq(
            "A",
            37,
            topics.measurement,
            "Find the area of a trapezium with parallel sides 8 cm and 12 cm and height 5 cm.",
            "Area = 1/2 x (8 + 12) x 5 = 50 cm^2.",
            4800,
            choices(
                option("A", "20 cm^2", false),
                option("B", "40 cm^2", false),
                option("C", "50 cm^2", true),
                option("D", "100 cm^2", false),
            ),
        ),
        topics,
        Ghost(2022int),
    );
    push_seed_question(
        &mut qs,
        mcq(
            "A",
            38,
            topics.fractions,
            "Find the reciprocal of 2/7.",
            "The reciprocal is obtained by inverting the fraction, giving 7/2.",
            3100,
            choices(
                option("A", "2/7", false),
                option("B", "7/2", true),
                option("C", "5/7", false),
                option("D", "14/7", false),
            ),
        ),
        topics,
        Ghost(2022int),
    );
    push_seed_question(
        &mut qs,
        mcq(
            "A",
            39,
            topics.equations,
            "If 2a + 3 = 17, find a.",
            "Subtract 3 to get 2a = 14, then divide by 2 to get a = 7.",
            3500,
            choices(
                option("A", "5", false),
                option("B", "6", false),
                option("C", "7", true),
                option("D", "8", false),
            ),
        ),
        topics,
        Ghost(2022int),
    );
    push_seed_question(
        &mut qs,
        mcq(
            "A",
            40,
            topics.measurement,
            "Convert 1.8 litres to millilitres.",
            "1 litre = 1000 mL, so 1.8 litres = 1800 mL.",
            2800,
            choices(
                option("A", "180 mL", false),
                option("B", "1800 mL", true),
                option("C", "18,000 mL", false),
                option("D", "0.18 mL", false),
            ),
        ),
        topics,
        Ghost(2022int),
    );
    push_seed_question(
        &mut qs,
        theory(
            "B",
            1,
            topics.ratios,
            "Divide GHC840 among Kofi, Ama and Yaw in the ratio 3:4:5.",
            "short_answer",
            6,
            5200,
            "Total parts = 3 + 4 + 5 = 12. One part = 840/12 = 70. Shares: Kofi = GHC210, Ama = GHC280, Yaw = GHC350.",
        ),
        topics,
        Ghost(2022int),
    );
    push_seed_question(
        &mut qs,
        theory(
            "B",
            2,
            topics.equations,
            "A taxi charges a fixed amount of GHC6 plus GHC2 for each kilometre travelled. If Ama paid GHC26, how many kilometres did she travel?",
            "short_answer",
            5,
            5000,
            "Let the distance be x km. Then 6 + 2x = 26, so 2x = 20 and x = 10 km.",
        ),
        topics,
        Ghost(2022int),
    );
    push_seed_question(
        &mut qs,
        theory(
            "B",
            3,
            topics.measurement,
            "A trapezium has parallel sides 10 cm and 16 cm and height 7 cm. Find its area.",
            "short_answer",
            5,
            5600,
            "Area of a trapezium = 1/2 x (sum of parallel sides) x height = 1/2 x (10 + 16) x 7 = 91 cm^2.",
        ),
        topics,
        Ghost(2022int),
    );
    push_seed_question(
        &mut qs,
        theory(
            "B",
            4,
            topics.data,
            "The table below shows the number of books read by a group of students.\n1 book: 3 students\n2 books: 5 students\n3 books: 4 students\n4 books: 2 students\nFind the total number of students and the mean number of books read.",
            "short_answer",
            6,
            5700,
            "Total students = 3 + 5 + 4 + 2 = 14. Total books = (1 x 3) + (2 x 5) + (3 x 4) + (4 x 2) = 33. Mean = 33/14 = 2.36 books, correct to 2 decimal places.",
        ),
        topics,
        Ghost(2022int),
    );
    qs
}
/// How many options the list marks correct is positive exactly when some option is.
pub proof fn lemma_marked_count_positive(options: Seq<AdminPastPaperOptionInput>)
    ensures
        marked_count(options) > 0 <==> exists|i: int| 0 <= i < options.len() && #[trigger] options[i].is_correct,
    decreases options.len(),
{
    if options.len() > 0 {
        let rest = options.drop_last();
        lemma_marked_count_positive(rest);
        if exists|i: int| 0 <= i < rest.len() && #[trigger] rest[i].is_correct {
            let i = choose|i: int| 0 <= i < rest.len() && #[trigger] rest[i].is_correct;
            assert(options[i].is_correct);
        }
        if exists|i: int| 0 <= i < options.len() && #[trigger] options[i].is_correct {
            let i = choose|i: int| 0 <= i < options.len() && #[trigger] options[i].is_correct;
            if i < rest.len() {
                assert(rest[i].is_correct);
            }
        }
    }
}

/// Every multiple-choice question of a seeded paper has options and a correct one, and
/// every written question carries marks: what saving a paper asks of its questions
/// beyond a stem.
pub proof fn seed_paper_questions_meet_option_rules(qs: Seq<AdminPastPaperQuestionInput>, topics: SeedTopicIds)
    requires
        seed_paper_ok(qs, topics),
    ensures
        forall|i: int| 0 <= i < qs.len() && (#[trigger] qs[i]).question_format@ == "mcq"@ ==> {
            &&& qs[i].options@.len() > 0
            &&& crate::assessment_commands::has_correct_option(qs[i].options@)
        },
        forall|i: int| 0 <= i < qs.len() ==> ((#[trigger] qs[i]).marks matches Some(m) && m > 0),
{
    assert forall|i: int| 0 <= i < qs.len() && (#[trigger] qs[i]).question_format@ == "mcq"@ implies {
        &&& qs[i].options@.len() > 0
        &&& crate::assessment_commands::has_correct_option(qs[i].options@)
    } by {
        if i < seed_mcq_count() {
            assert(seed_mcq_ok(qs[i], i + 1, topics));
            lemma_marked_count_positive(qs[i].options@);
        } else {
            assert(seed_theory_ok(qs[i], i - seed_mcq_count() + 1, topics));
            assert(qs[i].question_format@ == "short_answer"@);
            reveal_strlit("mcq");
            reveal_strlit("short_answer");
            assert(qs[i].question_format@[1] != "mcq"@[1]);
        }
    }
    assert forall|i: int| 0 <= i < qs.len() implies ((#[trigger] qs[i]).marks matches Some(m) && m > 0) by {
        if i < seed_mcq_count() {
            assert(seed_mcq_ok(qs[i], i + 1, topics));
        } else {
            assert(seed_theory_ok(qs[i], i - seed_mcq_count() + 1, topics));
        }
    }
}

/// The key a seeded question is matched by: the section label trimmed and in ASCII
/// capitals, `::`, and the question number trimmed.
pub open spec fn lookup_key(section_label: Seq<char>, question_number: Option<Seq<char>>) -> Seq<char> {
    upper_of(trimmed(section_label)) + "::"@ + trimmed(match question_number {
        Some(n) => n,
        None => Seq::<char>::empty(),
    })
}

/// `section::number`, as `lookup_key` describes.
pub fn question_lookup_key(section_label: &str, question_number: Option<&str>) -> (r: String)
    ensures
        r@ == lookup_key(section_label@, match question_number {
            Some(n) => Some(n@),
            None => None,
        }),
{
    let section = to_upper_ascii(trim(section_label).as_str());
    let number = match question_number {
        Some(n) => trim(n),
        None => {
            let e = String::new();
            proof {
                assert(trimmed(Seq::<char>::empty()) =~= Seq::<char>::empty());
            }
            e
        },
    };
    cat(cat(section, "::"), number.as_str())
}

/// A stored question of an already seeded paper, as the lookup index reads it.
#[derive(Clone, Debug)]
pub struct SeedQuestionRow {
    pub section_label: String,
    pub question_number: Option<String>,
    pub question_id: i64,
}

/// The lookup index of a seeded paper: one entry per stored question that has a number,
/// in paper order.
pub open spec fn seed_index_of(rows: Seq<SeedQuestionRow>) -> Seq<(Seq<char>, i64)>
    decreases rows.len(),
{
    if rows.len() == 0 {
        Seq::empty()
    } else {
        let rest = seed_index_of(rows.drop_last());
        let w = rows.last();
        match w.question_number {
            Some(n) => rest.push((lookup_key(w.section_label@, Some(n@)), w.question_id)),
            None => rest,
        }
    }
}

/// The lookup index of the stored questions of a seeded paper.
pub fn seed_question_index(rows: &Vec<SeedQuestionRow>) -> (r: Vec<(String, i64)>)
    ensures
        r@.len() == seed_index_of(rows@).len(),
        forall|i: int| 0 <= i < r@.len() ==> (#[trigger] r@[i]).0@ == seed_index_of(rows@)[i].0 && r@[i].1 == seed_index_of(rows@)[i].1,
{
    let mut out: Vec<(String, i64)> = Vec::new();
    let mut i: usize = 0;
    while i < rows.len()
        invariant
            i <= rows.len(),
            out@.len() == seed_index_of(rows@.take(i as int)).len(),
            forall|k: int| 0 <= k < out@.len() ==> (#[trigger] out@[k]).0@ == seed_index_of(rows@.take(i as int))[k].0
                && out@[k].1 == seed_index_of(rows@.take(i as int))[k].1,
        decreases rows.len() - i,
    {
        assert(rows@.take(i + 1).drop_last() =~= rows@.take(i as int));
        let w = &rows[i];
        match &w.question_number {
            Some(n) => {
                let key = question_lookup_key(w.section_label.as_str(), Some(n.as_str()));
                out.push((key, w.question_id));
            },
            None => {},
        }
        i = i + 1;
    }
    assert(rows@.take(rows.len() as int) =~= rows@);
    out
}

/// What a lookup by key finds: the last entry with that key, as a map built from the
/// entries in order keeps it.
pub open spec fn index_lookup(index: Seq<(Seq<char>, i64)>, key: Seq<char>) -> Option<i64>
    decreases index.len(),
{
    if index.len() == 0 {
        None
    } else if index.last().0 == key {
        Some(index.last().1)
    } else {
        index_lookup(index.drop_last(), key)
    }
}

/// The stored question id filed under a key.
pub fn lookup_question_id(index: &Vec<(String, i64)>, key: &str) -> (r: Option<i64>)
    ensures
        r == index_lookup(index@.map_values(|e: (String, i64)| (e.0@, e.1)), key@),
{
    let ghost full = index@.map_values(|e: (String, i64)| (e.0@, e.1));
    assert(full.take(index.len() as int) =~= full);
    let mut i: usize = index.len();
    while i > 0
        invariant
            i <= index.len(),
            full == index@.map_values(|e: (String, i64)| (e.0@, e.1)),
            index_lookup(full, key@) == index_lookup(full.take(i as int), key@),
        decreases i,
    {
        let ghost pre = full.take(i as int);
        assert(pre.drop_last() =~= full.take(i - 1));
        assert(full[i - 1] == (index@[i - 1].0@, index@[i - 1].1));
        assert(pre.last() == full[i - 1]);
        if text_eq(index[i - 1].0.as_str(), key) {
            return Some(index[i - 1].1);
        }
        i = i - 1;
    }
    None
}

/// The question as it is staged for saving: with the id of the stored question of the
/// same key, if there is one.
pub fn stage_seed_question(question: AdminPastPaperQuestionInput, index: &Vec<(String, i64)>) -> (r: AdminPastPaperQuestionInput)
    ensures
        r.question_id == index_lookup(
            index@.map_values(|e: (String, i64)| (e.0@, e.1)),
            lookup_key(question.section_label@, opt_view(question.question_number)),
        ),
        r.section_label == question.section_label,
        r.question_number == question.question_number,
        r.topic_id == question.topic_id,
        r.stem == question.stem,
        r.question_format == question.question_format,
        r.options == question.options,
        r.marks == question.marks,
        r.difficulty_level == question.difficulty_level,
{
    let key = match &question.question_number {
        Some(n) => question_lookup_key(question.section_label.as_str(), Some(n.as_str())),
        None => question_lookup_key(question.section_label.as_str(), None),
    };
    let id = lookup_question_id(index, key.as_str());
    AdminPastPaperQuestionInput { question_id: id, ..question }
}

/// A failed save of a staged seed question, reported with where it happened.
pub fn seed_step_error(paper_code: &str, section_label: &str, question_number: &str, err: CommandError) -> (r: CommandError)
    ensures
        r.code@ == err.code@,
        r.message@ == paper_code@ + " failed at section "@ + section_label@ + " question "@ + question_number@ + ": "@
            + err.message@,
{
    let m = cat(cat(cat(cat(cat(cat(lit(paper_code), " failed at section "), section_label), " question "), question_number), ": "), err.message.as_str());
    CommandError { code: err.code, message: m }
}

/// The first topic of a subject, which stands in for any seed topic not found by name.
pub fn first_topic_or_error(subject_id: i64, topic_ids: &Vec<i64>) -> (r: Result<i64, CommandError>)
    ensures
        topic_ids@.len() > 0 ==> r == Ok::<i64, CommandError>(topic_ids@[0]),
        topic_ids@.len() == 0 ==> (r matches Err(e) && e.code@ == "not_found"@
            && e.message@ == "subject "@ + decimal_text(subject_id as int) + " has no topics available"@),
{
    if topic_ids.len() > 0 {
        Ok(topic_ids[0])
    } else {
        Err(CommandError::new("not_found", cat(cat(lit("subject "), i64_text(subject_id).as_str()), " has no topics available")))
    }
}

/// The topics found by name for each strand, before the fallback is applied.
#[derive(Clone, Copy, Debug)]
pub struct SeedTopicMatches {
    pub number_ops: Option<i64>,
    pub fractions: Option<i64>,
    pub ratios: Option<i64>,
    pub equations: Option<i64>,
    pub algebra: Option<i64>,
    pub powers: Option<i64>,
    pub measurement: Option<i64>,
    pub data: Option<i64>,
    pub probability: Option<i64>,
}

pub open spec fn or_fallback(found: Option<i64>, fallback: i64) -> i64 {
    match found {
        Some(id) => id,
        None => fallback,
    }
}

fn pick(found: Option<i64>, fallback: i64) -> (r: i64)
    ensures
        r == or_fallback(found, fallback),
{
    match found {
        Some(id) => id,
        None => fallback,
    }
}

/// Each strand's topic, or the fallback where none was found.
pub fn resolve_seed_topics(found: &SeedTopicMatches, fallback: i64) -> (r: SeedTopicIds)
    ensures
        r.number_ops == or_fallback(found.number_ops, fallback),
        r.fractions == or_fallback(found.fractions, fallback),
        r.ratios == or_fallback(found.ratios, fallback),
        r.equations == or_fallback(found.equations, fallback),
        r.algebra == or_fallback(found.algebra, fallback),
        r.powers == or_fallback(found.powers, fallback),
        r.measurement == or_fallback(found.measurement, fallback),
        r.data == or_fallback(found.data, fallback),
        r.probability == or_fallback(found.probability, fallback),
{
    SeedTopicIds {
        number_ops: pick(found.number_ops, fallback),
        fractions: pick(found.fractions, fallback),
        ratios: pick(found.ratios, fallback),
        equations: pick(found.equations, fallback),
        algebra: pick(found.algebra, fallback),
        powers: pick(found.powers, fallback),
        measurement: pick(found.measurement, fallback),
        data: pick(found.data, fallback),
        probability: pick(found.probability, fallback),
    }
}

/// The `LIKE` pattern a topic name is searched with when no exact name matches.
pub fn topic_search_pattern(candidate: &str) -> (r: String)
    ensures
        r@ == "%"@ + candidate@ + "%"@,
{
    cat(cat(lit("%"), candidate), "%")
}

/// The first candidate found.
pub open spec fn first_found(found: Seq<Option<i64>>) -> Option<i64>
    decreases found.len(),
{
    if found.len() == 0 {
        None
    } else if found[0] is Some {
        found[0]
    } else {
        first_found(found.drop_first())
    }
}

/// A topic matched by name: the candidates are tried by exact name first, in order, and
/// only then by pattern.
pub fn find_topic_id(exact: &Vec<Option<i64>>, fuzzy: &Vec<Option<i64>>) -> (r: Option<i64>)
    ensures
        r == (if first_found(exact@) is Some { first_found(exact@) } else { first_found(fuzzy@) }),
{
    let a = first_some(exact);
    if a.is_some() {
        a
    } else {
        first_some(fuzzy)
    }
}

fn first_some(v: &Vec<Option<i64>>) -> (r: Option<i64>)
    ensures
        r == first_found(v@),
{
    let mut i: usize = 0;
    assert(v@.skip(0) =~= v@);
    while i < v.len()
        invariant
            i <= v.len(),
            first_found(v@) == first_found(v@.skip(i as int)),
        decreases v.len() - i,
    {
        assert(v@.skip(i as int).drop_first() =~= v@.skip(i + 1));
        if v[i].is_some() {
            assert(v@.skip(i as int)[0] == v@[i as int]);
            return v[i];
        }
        i = i + 1;
    }
    assert(v@.skip(i as int) =~= Seq::<Option<i64>>::empty());
    None
}

/// The mathematics subject, which must exist once the sample pack is installed.
pub fn require_math_subject(found: Option<i64>) -> (r: Result<i64, CommandError>)
    ensures
        found matches Some(id) ==> r == Ok::<i64, CommandError>(id),
        found is None ==> (r matches Err(e) && e.code@ == "not_found"@
            && e.message@ == "could not find or install a mathematics subject"@),
{
    match found {
        Some(id) => Ok(id),
        None => Err(CommandError::new("not_found", lit("could not find or install a mathematics subject"))),
    }
}

/// A paper code the seeding tool owns.
pub open spec fn seed_code(code: Option<Seq<char>>) -> bool {
    match code {
        Some(c) => c.len() >= "BECE-MATH-SEED-"@.len() && c.subrange(0, "BECE-MATH-SEED-"@.len() as int) == "BECE-MATH-SEED-"@,
        None => false,
    }
}

/// Whether a paper code starts with the seeding tool's prefix.
pub fn is_seed_paper_code(code: &Option<String>) -> (r: bool)
    ensures
        r == seed_code(opt_view(*code)),
{
    match code {
        None => false,
        Some(c) => {
            let v = chars_of(c.as_str());
            let p = chars_of("BECE-MATH-SEED-");
            if v.len() < p.len() {
                return false;
            }
            let mut i: usize = 0;
            while i < p.len()
                invariant
                    i <= p.len(),
                    p.len() <= v.len(),
                    v@ == c@,
                    opt_view(*code) == Some(c@),
                    p@ == "BECE-MATH-SEED-"@,
                    forall|k: int| 0 <= k < i ==> v@[k] == p@[k],
                decreases p.len() - i,
            {
                if v[i] != p[i] {
                    assert(c@.subrange(0, p@.len() as int)[i as int] != p@[i as int]);
                    assert(c@.subrange(0, "BECE-MATH-SEED-"@.len() as int) != "BECE-MATH-SEED-"@);
                    return false;
                }
                i = i + 1;
            }
            assert(c@.subrange(0, p@.len() as int) =~= p@);
            true
        },
    }
}

/// The first six keywords of a paper, joined with commas.
pub fn keyword_preview(keywords: &Vec<String>) -> (r: String)
    ensures
        r@ == joined(keywords.deep_view().take(if keywords@.len() < 6 { keywords@.len() as int } else { 6 }), ", "@),
{
    let n: usize = if keywords.len() < 6 { keywords.len() } else { 6 };
    let mut first: Vec<String> = Vec::new();
    let mut i: usize = 0;
    while i < n
        invariant
            i <= n,
            n <= keywords.len(),
            first.deep_view() == keywords.deep_view().take(i as int),
        decreases n - i,
    {
        let ghost before = first.deep_view();
        let k = keywords[i].clone();
        assert(k@ == keywords.deep_view()[i as int]);
        first.push(k);
        assert(first.deep_view() =~= before.push(keywords.deep_view()[i as int]));
        assert(keywords.deep_view().take(i + 1) =~= keywords.deep_view().take(i as int).push(keywords.deep_view()[i as int]));
        i = i + 1;
    }
    join_texts(&first, ", ")
}

/// The lookup key of a one-letter section and a positive question number.
proof fn lemma_seed_key_shape(section: Seq<char>, letter: char, number: int)
    requires
        section == seq![letter],
        letter == 'A' || letter == 'B',
        number >= 1,
    ensures
        lookup_key(section, Some(decimal_text(number))) == seq![letter] + seq![':', ':'] + digits_of(number as nat),
{
    reveal_strlit("::");
    crate::text::lemma_trim_of_unspaced(section);
    crate::text::lemma_digits_len(number as nat);
    crate::text::lemma_digits_not_space(number as nat);
    let d = digits_of(number as nat);
    assert(!crate::text::is_space(d[0]));
    assert(!crate::text::is_space(d[d.len() - 1]));
    crate::text::lemma_trim_of_unspaced(d);
    assert(upper_of(seq![letter]) =~= seq![letter]);
}

/// The number a question has within its section of a seeded paper.
pub open spec fn seed_number(i: int) -> int {
    if i < seed_mcq_count() { i + 1 } else { i - seed_mcq_count() + 1 }
}

/// The section letter of the question at `i` of a seeded paper.
pub open spec fn seed_letter(i: int) -> char {
    if i < seed_mcq_count() { 'A' } else { 'B' }
}

proof fn lemma_seed_question_key(qs: Seq<AdminPastPaperQuestionInput>, topics: SeedTopicIds, i: int)
    requires
        seed_paper_ok(qs, topics),
        0 <= i < qs.len(),
    ensures
        lookup_key(qs[i].section_label@, opt_view(qs[i].question_number))
            == seq![seed_letter(i)] + seq![':', ':'] + digits_of(seed_number(i) as nat),
{
    reveal_strlit("A");
    reveal_strlit("B");
    assert("A"@ =~= seq!['A']);
    assert("B"@ =~= seq!['B']);
    if i < seed_mcq_count() {
        assert(seed_mcq_ok(qs[i], i + 1, topics));
        lemma_seed_key_shape(qs[i].section_label@, 'A', i + 1);
    } else {
        assert(seed_theory_ok(qs[i], i - seed_mcq_count() + 1, topics));
        lemma_seed_key_shape(qs[i].section_label@, 'B', i - seed_mcq_count() + 1);
    }
}

/// No two questions of a seeded paper share a lookup key, so every stored question is
/// matched back to the seed question it came from.
pub proof fn seed_paper_keys_are_distinct(qs: Seq<AdminPastPaperQuestionInput>, topics: SeedTopicIds, i: int, j: int)
    requires
        seed_paper_ok(qs, topics),
        0 <= i < j < qs.len(),
    ensures
        lookup_key(qs[i].section_label@, opt_view(qs[i].question_number))
            != lookup_key(qs[j].section_label@, opt_view(qs[j].question_number)),
{
    lemma_seed_question_key(qs, topics, i);
    lemma_seed_question_key(qs, topics, j);
    let ki = seq![seed_letter(i)] + seq![':', ':'] + digits_of(seed_number(i) as nat);
    let kj = seq![seed_letter(j)] + seq![':', ':'] + digits_of(seed_number(j) as nat);
    if ki == kj {
        assert(ki[0] == seed_letter(i));
        assert(kj[0] == seed_letter(j));
        assert(ki.skip(3) =~= digits_of(seed_number(i) as nat));
        assert(kj.skip(3) =~= digits_of(seed_number(j) as nat));
        crate::text::lemma_digits_injective(seed_number(i) as nat, seed_number(j) as nat);
    }
}

/// In both seeded papers the option a multiple-choice question marks correct holds the
/// answer that question works out: in the 2023 paper, A3 ("Solve 3x + 5 = 20.") marks the
/// option "5", and A1 ("Simplify 15/20 to its lowest terms.") marks "3/4".
#[verifier::rlimit(50)]
pub proof fn seeded_correct_options_hold_the_answer(year: int, t: SeedTopicIds, i: int, k: int)
    requires
        year == 2022 || year == 2023,
        0 <= i < seed_mcq_count(),
        0 <= k < seed_question(year, i, t).options.len(),
        seed_question(year, i, t).options[k].3,
    ensures
        seed_question(year, i, t).options.len() == 4,
        seed_question(year, i, t).options[k].2 == seed_answer(year, i),
{
}

} // verus!

