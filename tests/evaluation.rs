use oca_eval::scoring::question_scoring;
use oca_eval::{eval_raw, Answer, Category, CategoryMap, NormGroup, WeightTables};

/// Rows of twenty consecutive questions: category `c` holds questions 20c..20c+19.
fn block_rows() -> [[u8; 20]; 10] {
    let mut rows = [[0u8; 20]; 10];
    for c in 0..10 {
        for j in 0..20 {
            rows[c][j] = (20 * c + j) as u8;
        }
    }
    rows
}

/// Rows that take every tenth question: category `c` holds questions c, c+10, ...
fn round_robin_rows() -> [[u8; 20]; 10] {
    let mut rows = [[0u8; 20]; 10];
    for c in 0..10 {
        for j in 0..20 {
            rows[c][j] = (c + 10 * j) as u8;
        }
    }
    rows
}

/// Rows whose first row is `first`; the other questions fill the rest in order.
fn rows_with_first(first: [u8; 20]) -> [[u8; 20]; 10] {
    let mut rows = [[0u8; 20]; 10];
    rows[0] = first;
    let rest: Vec<u8> = (0u8..200).filter(|q| !first.contains(q)).collect();
    for (k, q) in rest.iter().enumerate() {
        rows[1 + k / 20][k % 20] = *q;
    }
    rows
}

/// Answers, "maybe" outside `row`, chosen inside `row` so that its questions
/// score `target` in all, starting from the lowest (or highest) scores.
fn answers_for_sum(row: &[u8; 20], target: u32, from_low: bool) -> [Answer; 200] {
    let mut answers = [Answer::Maybe; 200];
    let mut chosen = [0u32; 200];
    let mut current: u32 = 0;
    for &q in row {
        let s = question_scoring(q as usize);
        let options = [(Answer::Yes, s.yes), (Answer::Maybe, s.maybe), (Answer::No, s.no)];
        let pick = if from_low {
            options.iter().min_by_key(|o| o.1).unwrap()
        } else {
            options.iter().max_by_key(|o| o.1).unwrap()
        };
        answers[q as usize] = pick.0;
        chosen[q as usize] = pick.1 as u32;
        current += pick.1 as u32;
    }
    for &q in row {
        let s = question_scoring(q as usize);
        let options = [(Answer::Yes, s.yes), (Answer::Maybe, s.maybe), (Answer::No, s.no)];
        let base = chosen[q as usize];
        let mut best = base;
        let mut best_answer = answers[q as usize];
        for (a, v) in options.iter() {
            let v = *v as u32;
            let closer = if from_low {
                v > best && current - base + v <= target
            } else {
                v < best && current - base + v >= target
            };
            if closer {
                best = v;
                best_answer = *a;
            }
        }
        current = current - base + best;
        chosen[q as usize] = best;
        answers[q as usize] = best_answer;
    }
    answers
}

/// Synthetic curves: the cell of group `g`, category `c` and column `k` is
/// k - 40 + 3c + 20g, with groups in the order young male, young female,
/// adult male, adult female.
fn test_tables() -> WeightTables {
    let mut groups = [[[0i8; 81]; 10]; 4];
    for g in 0..4 {
        for c in 0..10 {
            for k in 0..81 {
                groups[g][c][k] = (k as i32 - 40 + 3 * c as i32 + 20 * g as i32) as i8;
            }
        }
    }
    WeightTables {
        young_male: groups[0],
        young_female: groups[1],
        adult_male: groups[2],
        adult_female: groups[3],
    }
}

const LOW_ROW: [u8; 20] = [0, 7, 11, 13, 16, 17, 21, 24, 58, 75, 99, 124, 141, 145, 154, 174, 178, 185, 190, 198];
const HIGH_ROW: [u8; 20] = [0, 1, 2, 3, 5, 11, 14, 17, 20, 21, 23, 25, 27, 28, 29, 31, 105, 117, 154, 156];

#[test]
fn scoring_table_first_and_last_questions() {
    let first = question_scoring(0);
    assert_eq!((first.yes, first.maybe, first.no), (2, 4, 6));
    assert_eq!(first.score_for_answer(Answer::Yes), 2);
    assert_eq!(first.score_for_answer(Answer::Maybe), 4);
    assert_eq!(first.score_for_answer(Answer::No), 6);
    let last = question_scoring(199);
    assert_eq!((last.yes, last.maybe, last.no), (5, 3, 3));
    let zero_yes = question_scoring(174);
    assert_eq!((zero_yes.yes, zero_yes.maybe, zero_yes.no), (0, 1, 5));
}

#[test]
fn eval_raw_scores_each_answer_by_its_question() {
    let mut answers = [Answer::Maybe; 200];
    answers[0] = Answer::Yes;
    answers[1] = Answer::No;
    answers[105] = Answer::No;
    let raw = eval_raw(&answers);
    let scores = raw.scores();
    assert_eq!(scores[0], 2);
    assert_eq!(scores[1], 3);
    assert_eq!(scores[2], 4);
    assert_eq!(scores[105], 7);
    assert_eq!(scores[199], 3);
}

#[test]
fn eval_raw_is_deterministic() {
    let mut answers = [Answer::No; 200];
    for i in (0..200).step_by(3) {
        answers[i] = Answer::Yes;
    }
    for i in (1..200).step_by(7) {
        answers[i] = Answer::Maybe;
    }
    assert_eq!(eval_raw(&answers).scores(), eval_raw(&answers).scores());
}

#[test]
fn eval_raw_scores_stay_within_seven() {
    for answer in [Answer::Yes, Answer::Maybe, Answer::No] {
        let raw = eval_raw(&[answer; 200]);
        for s in raw.scores().iter() {
            assert!(*s <= 7);
        }
    }
}

#[test]
fn all_maybe_scores_equal_maybe_column() {
    let raw = eval_raw(&[Answer::Maybe; 200]);
    let scores = raw.scores();
    for q in 0..200 {
        assert_eq!(scores[q], question_scoring(q).maybe);
    }
    assert_eq!(scores.iter().map(|s| *s as u32).sum::<u32>(), 757);
}

#[test]
fn all_maybe_category_sums_under_block_map() {
    let map = CategoryMap::new(block_rows()).unwrap();
    let raw = eval_raw(&[Answer::Maybe; 200]);
    let expected = [81, 75, 76, 74, 74, 72, 79, 80, 69, 77];
    for (c, category) in Category::iter().into_iter().enumerate() {
        let score = raw.raw_score_for_category(category, &map);
        assert_eq!(score.value(), expected[c]);
        assert_eq!(score.category(), category);
    }
}

#[test]
fn all_maybe_category_sums_under_round_robin_map() {
    let map = CategoryMap::new(round_robin_rows()).unwrap();
    let raw = eval_raw(&[Answer::Maybe; 200]);
    let expected = [79, 78, 78, 74, 71, 72, 77, 76, 75, 77];
    for (c, category) in Category::iter().into_iter().enumerate() {
        assert_eq!(raw.raw_score_for_category(category, &map).value(), expected[c]);
    }
}

#[test]
fn category_sums_add_up_to_all_scores() {
    let mut answers = [Answer::Yes; 200];
    for i in (0..200).step_by(2) {
        answers[i] = Answer::No;
    }
    let raw = eval_raw(&answers);
    let all: u32 = raw.scores().iter().map(|s| *s as u32).sum();
    for rows in [block_rows(), round_robin_rows(), rows_with_first(LOW_ROW)] {
        let map = CategoryMap::new(rows).unwrap();
        let by_category: u32 = Category::iter()
            .into_iter()
            .map(|c| raw.raw_score_for_category(c, &map).value() as u32)
            .sum();
        assert_eq!(by_category, all);
    }
}

#[test]
fn category_map_rejects_repeated_question() {
    let mut rows = block_rows();
    rows[3][5] = rows[7][0];
    assert!(CategoryMap::new(rows).is_none());
}

#[test]
fn category_map_rejects_question_past_the_last() {
    let mut rows = block_rows();
    rows[9][19] = 200;
    assert!(CategoryMap::new(rows).is_none());
    rows[9][19] = 255;
    assert!(CategoryMap::new(rows).is_none());
}

#[test]
fn category_map_rejects_missing_question() {
    let mut rows = block_rows();
    rows[0][0] = 1;
    assert!(CategoryMap::new(rows).is_none());
}

#[test]
fn category_map_row_returns_its_questions() {
    let map = CategoryMap::new(round_robin_rows()).unwrap();
    let row = map.row(Category::C);
    assert_eq!(row[0], 2);
    assert_eq!(row[19], 192);
}

#[test]
fn weigh_looks_up_the_group_curve() {
    let map = CategoryMap::new(block_rows()).unwrap();
    let tables = test_tables();
    let raw = eval_raw(&[Answer::Maybe; 200]);
    let a = raw.raw_score_for_category(Category::A, &map);
    assert_eq!(a.value(), 81);
    assert_eq!(a.weigh(NormGroup::YoungMale, &tables), Some(4));
    assert_eq!(a.weigh(NormGroup::YoungFemale, &tables), Some(24));
    assert_eq!(a.weigh(NormGroup::AdultMale, &tables), Some(44));
    assert_eq!(a.weigh(NormGroup::AdultFemale, &tables), Some(64));
    let b = raw.raw_score_for_category(Category::B, &map);
    assert_eq!(b.value(), 75);
    assert_eq!(b.weigh(NormGroup::AdultMale, &tables), Some(41));
    let j = raw.raw_score_for_category(Category::J, &map);
    assert_eq!(j.value(), 77);
    assert_eq!(j.weigh(NormGroup::YoungFemale, &tables), Some(47));
}

#[test]
fn weigh_at_lowest_raw_sum_of_domain() {
    let map = CategoryMap::new(rows_with_first(LOW_ROW)).unwrap();
    let raw = eval_raw(&answers_for_sum(&LOW_ROW, 37, true));
    let score = raw.raw_score_for_category(Category::A, &map);
    assert_eq!(score.value(), 37);
    assert_eq!(score.weigh(NormGroup::YoungMale, &test_tables()), Some(-40));
}

#[test]
fn weigh_below_domain_is_absent() {
    let map = CategoryMap::new(rows_with_first(LOW_ROW)).unwrap();
    let tables = test_tables();
    let raw = eval_raw(&answers_for_sum(&LOW_ROW, 36, true));
    let score = raw.raw_score_for_category(Category::A, &map);
    assert_eq!(score.value(), 36);
    assert_eq!(score.weigh(NormGroup::AdultFemale, &tables), None);
    let raw = eval_raw(&answers_for_sum(&LOW_ROW, 0, true));
    let score = raw.raw_score_for_category(Category::A, &map);
    assert_eq!(score.value(), 23);
    assert_eq!(score.weigh(NormGroup::YoungMale, &tables), None);
}

#[test]
fn weigh_at_highest_raw_sum_of_domain() {
    let map = CategoryMap::new(rows_with_first(HIGH_ROW)).unwrap();
    let raw = eval_raw(&answers_for_sum(&HIGH_ROW, 117, false));
    let score = raw.raw_score_for_category(Category::A, &map);
    assert_eq!(score.value(), 117);
    assert_eq!(score.weigh(NormGroup::AdultFemale, &test_tables()), Some(100));
}

#[test]
fn weigh_above_domain_is_absent() {
    let map = CategoryMap::new(rows_with_first(HIGH_ROW)).unwrap();
    let tables = test_tables();
    let raw = eval_raw(&answers_for_sum(&HIGH_ROW, 118, false));
    let score = raw.raw_score_for_category(Category::A, &map);
    assert_eq!(score.value(), 118);
    assert_eq!(score.weigh(NormGroup::AdultMale, &tables), None);
    let raw = eval_raw(&answers_for_sum(&HIGH_ROW, 200, false));
    let score = raw.raw_score_for_category(Category::A, &map);
    assert_eq!(score.value(), 124);
    assert_eq!(score.weigh(NormGroup::YoungFemale, &tables), None);
}
