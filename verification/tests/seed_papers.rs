use ecoach_commands::seed_papers::{
    build_2022_questions, build_2023_questions, find_topic_id, first_topic_or_error, is_seed_paper_code,
    keyword_preview, lookup_question_id, question_lookup_key, require_math_subject, resolve_seed_topics,
    seed_question_index, seed_step_error, stage_seed_question, topic_search_pattern, SeedQuestionRow,
    SeedTopicIds, SeedTopicMatches,
};
use ecoach_commands::assessment_commands::{validate_past_paper_input, AdminPastPaperSaveInput};
use ecoach_commands::error::CommandError;

fn topics() -> SeedTopicIds {
    SeedTopicIds {
        number_ops: 1,
        fractions: 2,
        ratios: 3,
        equations: 4,
        algebra: 5,
        powers: 6,
        measurement: 7,
        data: 8,
        probability: 9,
    }
}

#[test]
fn seeded_papers_have_forty_objective_and_four_written_questions() {
    for questions in [build_2023_questions(&topics()), build_2022_questions(&topics())] {
        assert_eq!(questions.len(), 44);
        for (i, q) in questions.iter().enumerate() {
            if i < 40 {
                assert_eq!(q.section_label, "A");
                assert_eq!(q.question_number.as_deref(), Some((i + 1).to_string().as_str()));
                assert_eq!(q.question_format, "mcq");
                assert_eq!(q.options.len(), 4);
                assert_eq!(q.options.iter().filter(|o| o.is_correct).count(), 1);
            } else {
                assert_eq!(q.section_label, "B");
                assert_eq!(q.question_number.as_deref(), Some((i - 39).to_string().as_str()));
                assert!(q.options.is_empty());
            }
        }
        let save = AdminPastPaperSaveInput {
            paper_id: None,
            subject_id: 1,
            exam_year: 2023,
            paper_code: Some("BECE-MATH-SEED-2023".to_string()),
            title: "BECE Mathematics Practice Seed 2023".to_string(),
            questions: questions.clone(),
        };
        assert!(validate_past_paper_input(&save).is_ok());
        let mut keys: Vec<String> = questions
            .iter()
            .map(|q| question_lookup_key(&q.section_label, q.question_number.as_deref()))
            .collect();
        keys.sort();
        keys.dedup();
        assert_eq!(keys.len(), 44);
    }
    let first = &build_2023_questions(&topics())[0];
    assert_eq!(first.stem, "Simplify 15/20 to its lowest terms.");
    assert_eq!(first.topic_id, 2);
}

fn key(q: &ecoach_commands::assessment_commands::AdminPastPaperQuestionInput) -> Vec<String> {
    q.options.iter().filter(|o| o.is_correct).map(|o| o.option_text.clone()).collect()
}

#[test]
fn seeded_answer_keys_topics_and_marks() {
    let r = build_2023_questions(&topics());
    assert_eq!(key(&r[0]), vec!["3/4"]);
    assert_eq!(key(&r[1]), vec!["40"]);
    assert_eq!(key(&r[5]), vec!["7.5"]);
    assert_eq!(key(&r[10]), vec!["36"]);
    assert_eq!(key(&r[13]), vec!["(x + 2)(x + 3)"]);
    assert_eq!(key(&r[29]), vec!["308 cm^2"]);
    assert_eq!(key(&r[39]), vec!["40"]);
    assert_eq!(r[0].topic_id, 2);
    assert_eq!(r[40].topic_id, 3);
    assert!(r.iter().all(|q| q.question_id.is_none()));

    let r = build_2022_questions(&topics());
    assert_eq!(key(&r[0]), vec!["3/8"]);
    assert_eq!(key(&r[1]), vec!["9"]);
    assert_eq!(key(&r[2]), vec!["6"]);
    assert_eq!(key(&r[19]), vec!["135 cm^2"]);
    assert_eq!(key(&r[39]), vec!["1800 mL"]);
    assert_eq!(r[0].topic_id, 2);
    assert_eq!(r[40].topic_id, 3);
    assert_eq!(r[40].marks, Some(6));
    assert_eq!(r[40].question_format, "short_answer");
}

#[test]
fn lookup_keys_ignore_case_and_padding() {
    assert_eq!(question_lookup_key(" a ", Some(" 12 ")), "A::12");
    assert_eq!(question_lookup_key("B", None), "B::");
}

#[test]
fn staged_questions_reuse_stored_ids() {
    let rows = vec![
        SeedQuestionRow { section_label: "a".to_string(), question_number: Some("1".to_string()), question_id: 70 },
        SeedQuestionRow { section_label: "A".to_string(), question_number: None, question_id: 71 },
        SeedQuestionRow { section_label: "A".to_string(), question_number: Some("1".to_string()), question_id: 72 },
    ];
    let index = seed_question_index(&rows);
    assert_eq!(index.len(), 2);
    assert_eq!(lookup_question_id(&index, "A::1"), Some(72));
    assert_eq!(lookup_question_id(&index, "A::2"), None);

    let question = build_2023_questions(&topics()).remove(0);
    let staged = stage_seed_question(question, &index);
    assert_eq!(staged.question_id, Some(72));
}

#[test]
fn seed_failures_say_where_they_happened() {
    let err = seed_step_error(
        "BECE-MATH-SEED-2023",
        "A",
        "7",
        CommandError { code: "validation".to_string(), message: "title is required".to_string() },
    );
    assert_eq!(err.code, "validation");
    assert_eq!(err.message, "BECE-MATH-SEED-2023 failed at section A question 7: title is required");
}

#[test]
fn topics_fall_back_to_the_first_topic() {
    assert_eq!(first_topic_or_error(3, &vec![40, 41]).unwrap(), 40);
    assert_eq!(first_topic_or_error(3, &vec![]).unwrap_err().message, "subject 3 has no topics available");
    let found = SeedTopicMatches {
        number_ops: Some(11),
        fractions: None,
        ratios: None,
        equations: Some(14),
        algebra: None,
        powers: None,
        measurement: None,
        data: None,
        probability: None,
    };
    let resolved = resolve_seed_topics(&found, 40);
    assert_eq!(resolved.number_ops, 11);
    assert_eq!(resolved.fractions, 40);
    assert_eq!(resolved.equations, 14);
    assert_eq!(find_topic_id(&vec![None, Some(5)], &vec![Some(1)]), Some(5));
    assert_eq!(find_topic_id(&vec![None, None], &vec![None, Some(2)]), Some(2));
    assert_eq!(find_topic_id(&vec![], &vec![]), None);
    assert_eq!(topic_search_pattern("Data"), "%Data%");
    assert_eq!(require_math_subject(Some(1)).unwrap(), 1);
    assert_eq!(
        require_math_subject(None).unwrap_err().message,
        "could not find or install a mathematics subject"
    );
}

#[test]
fn seed_paper_listing_helpers() {
    assert!(is_seed_paper_code(&Some("BECE-MATH-SEED-2022".to_string())));
    assert!(!is_seed_paper_code(&Some("BECE-MATH-2022".to_string())));
    assert!(!is_seed_paper_code(&None));
    let words: Vec<String> = ["a", "b", "c", "d", "e", "f", "g"].iter().map(|s| s.to_string()).collect();
    assert_eq!(keyword_preview(&words), "a, b, c, d, e, f");
    assert_eq!(keyword_preview(&words[..2].to_vec()), "a, b");
}
