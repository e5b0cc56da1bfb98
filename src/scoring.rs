//! Scoring of single answers and of a whole questionnaire.
use vstd::prelude::*;

use crate::category_map::{category_sum, sum_at, CategoryMap};
use crate::types::{Answer, Category};
use crate::weighting::RawScoreForCategory;
use crate::{N_QUESTIONS, QUESTIONS_PER_CATEGORY};

verus! {

/// Scores of every question, three per question in the order yes, maybe, no.
pub const QUESTION_SCORINGS: [u8; 600] = [
    2, 4, 6,  6, 5, 3,  6, 4, 3,  3, 4, 6,  4, 4, 5,  3, 3, 6,  3, 4, 5,  2, 4, 5,  3, 4, 4,  5, 4, 4,
    3, 4, 5,  2, 4, 6,  5, 4, 3,  2, 4, 5,  3, 3, 6,  3, 4, 4,  2, 4, 5,  2, 6, 6,  5, 3, 3,  5, 5, 3,
    2, 3, 6,  1, 5, 6,  5, 4, 3,  3, 5, 6,  3, 1, 5,  2, 3, 6,  5, 4, 4,  6, 2, 2,  6, 3, 3,  3, 4, 6,
    5, 4, 4,  2, 4, 6,  6, 5, 3,  6, 3, 3,  5, 5, 2,  3, 5, 6,  3, 4, 6,  4, 4, 5,  3, 4, 5,  2, 3, 5,
    6, 4, 4,  5, 3, 3,  4, 4, 5,  2, 3, 6,  3, 4, 5,  3, 3, 5,  2, 5, 6,  3, 4, 5,  6, 4, 4,  4, 4, 3,
    5, 4, 2,  3, 4, 4,  3, 4, 6,  6, 3, 3,  2, 5, 6,  5, 3, 3,  5, 4, 4,  6, 3, 3,  1, 3, 5,  2, 5, 6,
    2, 4, 6,  5, 4, 4,  5, 4, 4,  2, 2, 6,  4, 4, 5,  6, 4, 3,  2, 4, 5,  6, 4, 3,  6, 3, 3,  4, 4, 5,
    3, 5, 6,  3, 4, 4,  2, 4, 5,  2, 4, 6,  5, 3, 3,  1, 3, 6,  6, 2, 2,  2, 5, 6,  5, 4, 3,  6, 3, 3,
    6, 3, 3,  3, 4, 6,  3, 3, 6,  6, 3, 2,  6, 3, 3,  2, 4, 6,  3, 3, 5,  5, 4, 3,  2, 5, 6,  3, 3, 5,
    3, 4, 6,  3, 4, 4,  5, 3, 3,  5, 4, 4,  3, 4, 5,  6, 4, 2,  5, 5, 3,  4, 4, 5,  2, 4, 5,  4, 3, 1,
    5, 4, 4,  2, 3, 5,  4, 4, 6,  2, 3, 6,  6, 4, 3,  2, 3, 7,  2, 3, 6,  3, 4, 5,  3, 4, 5,  5, 4, 4,
    2, 4, 5,  6, 2, 2,  6, 4, 3,  6, 4, 3,  3, 4, 6,  6, 4, 3,  3, 4, 5,  7, 2, 2,  5, 4, 3,  5, 4, 3,
    4, 4, 5,  3, 4, 6,  5, 4, 3,  2, 3, 6,  1, 3, 4,  4, 4, 6,  5, 4, 4,  3, 4, 6,  2, 5, 6,  3, 5, 6,
    5, 3, 2,  2, 4, 6,  6, 4, 3,  4, 4, 3,  2, 4, 5,  3, 5, 5,  3, 3, 6,  5, 3, 3,  5, 4, 4,  2, 5, 6,
    2, 5, 6,  1, 3, 5,  2, 4, 6,  5, 4, 3,  5, 5, 3,  1, 3, 5,  6, 4, 4,  3, 4, 6,  3, 5, 5,  2, 5, 6,
    2, 5, 6,  6, 5, 3,  2, 4, 6,  3, 3, 5,  7, 1, 1,  6, 4, 2,  7, 5, 2,  5, 5, 3,  5, 4, 2,  2, 2, 6,
    2, 5, 6,  6, 4, 3,  5, 4, 4,  5, 5, 2,  6, 3, 3,  3, 3, 6,  6, 4, 2,  6, 4, 3,  2, 3, 6,  3, 4, 5,
    3, 3, 6,  3, 4, 6,  6, 3, 2,  5, 4, 3,  0, 1, 5,  2, 2, 6,  6, 4, 4,  5, 3, 3,  0, 1, 5,  3, 5, 6,
    3, 3, 6,  3, 4, 6,  2, 4, 6,  3, 4, 6,  6, 6, 3,  1, 3, 5,  3, 3, 5,  2, 2, 6,  3, 5, 5,  6, 2, 2,
    1, 4, 5,  2, 4, 6,  5, 4, 3,  4, 5, 6,  6, 4, 2,  2, 5, 6,  2, 4, 5,  2, 5, 6,  0, 3, 5,  5, 3, 3,
];

/// The scores that one question gives to each of the three answers.
#[derive(Clone, Copy, Debug, PartialEq, Eq, Structural)]
pub struct QuestionScoring {
    pub yes: u8,
    pub maybe: u8,
    pub no: u8,
}

impl QuestionScoring {
    /// The score of `answer` under this scoring.
    pub open spec fn score_of(self, answer: Answer) -> u8 {
        match answer {
            Answer::Yes => self.yes,
            Answer::Maybe => self.maybe,
            Answer::No => self.no,
        }
    }

    /// The score that this question gives to `answer`.
    pub fn score_for_answer(&self, answer: Answer) -> (r: u8)
        ensures
            r == self.score_of(answer),
    {
        match answer {
            Answer::Yes => self.yes,
            Answer::Maybe => self.maybe,
            Answer::No => self.no,
        }
    }
}

/// The scoring of question `i` in the table.
pub open spec fn scoring_at(i: int) -> QuestionScoring {
    QuestionScoring {
        yes: QUESTION_SCORINGS@[3 * i],
        maybe: QUESTION_SCORINGS@[3 * i + 1],
        no: QUESTION_SCORINGS@[3 * i + 2],
    }
}

/// The per-question scores of a questionnaire: question `i` scores its answer
/// under the scoring of question `i`.
pub open spec fn raw_of(answers: Seq<Answer>) -> Seq<u8> {
    Seq::new(answers.len(), |i: int| scoring_at(i).score_of(answers[i]))
}

/// The "maybe" score of every question.
pub open spec fn maybe_column() -> Seq<u8> {
    Seq::new(200, |i: int| scoring_at(i).maybe)
}

/// Scoring depends on the answers alone: two score sheets of the same answers
/// are equal.
pub proof fn lemma_eval_raw_deterministic(answers: Seq<Answer>, first: RawScores, second: RawScores)
    requires
        first@ == raw_of(answers),
        second@ == raw_of(answers),
    ensures
        first@ == second@,
{
}

/// Where every answer is "maybe", the raw sum of each category is the sum of the
/// "maybe" scores of its questions.
pub proof fn lemma_all_maybe(rows: Seq<Seq<u8>>, category: Category)
    ensures
        category_sum(raw_of(Seq::new(200, |i: int| Answer::Maybe)), rows, category)
            == category_sum(maybe_column(), rows, category),
{
    assert(raw_of(Seq::new(200, |i: int| Answer::Maybe)) =~= maybe_column());
}

/// No entry of the scoring table exceeds seven.
pub proof fn lemma_scorings_at_most_seven()
    ensures
        forall|k: int| 0 <= k < 600 ==> QUESTION_SCORINGS@[k] <= 7,
{
}

/// The scoring of question `index`.
pub fn question_scoring(index: usize) -> (r: QuestionScoring)
    requires
        index < N_QUESTIONS,
    ensures
        r == scoring_at(index as int),
        r.yes <= 7,
        r.maybe <= 7,
        r.no <= 7,
{
    proof { lemma_scorings_at_most_seven(); }
    QuestionScoring {
        yes: QUESTION_SCORINGS[3 * index],
        maybe: QUESTION_SCORINGS[3 * index + 1],
        no: QUESTION_SCORINGS[3 * index + 2],
    }
}

/// The scores of the questions of one questionnaire, each in 0..=7.
pub struct RawScores {
    scores: [u8; 200],
}

impl RawScores {
    #[verifier::type_invariant]
    spec fn scores_in_range(self) -> bool {
        forall|i: int| 0 <= i < 200 ==> self.scores@[i] <= 7
    }

    /// The score of every question, in question order.
    pub fn scores(&self) -> (r: [u8; 200])
        ensures
            r@ == self@,
    {
        self.scores
    }

    /// The raw score of `category`: the sum of the scores of the questions
    /// that `map` lists for it.
    pub fn raw_score_for_category(&self, category: Category, map: &CategoryMap) -> (r: RawScoreForCategory)
        ensures
            r@.0 as int == category_sum(self@, map@, category),
            r@.1 == category,
    {
        proof { use_type_invariant(self); }
        let row = map.row(category);
        let mut total: u8 = 0;
        for j in 0..QUESTIONS_PER_CATEGORY
            invariant
                row@.len() == 20,
                forall|k: int| 0 <= k < 20 ==> #[trigger] row@[k] < 200,
                forall|i: int| 0 <= i < 200 ==> #[trigger] self.scores@[i] <= 7,
                total as int == sum_at(self.scores@, row@.take(j as int)),
                total <= 7 * j,
        {
            assert(row@.take(j + 1).drop_last() =~= row@.take(j as int));
            total = total + self.scores[row[j] as usize];
        }
        assert(row@.take(20) =~= row@);
        RawScoreForCategory::new(total, category)
    }
}

impl View for RawScores {
    type V = Seq<u8>;

    closed spec fn view(&self) -> Seq<u8> {
        self.scores@
    }
}

/// Scores every answer of a questionnaire.
pub fn eval_raw(answers: &[Answer; N_QUESTIONS]) -> (r: RawScores)
    ensures
        r@ == raw_of(answers@),
        r@.len() == N_QUESTIONS,
        forall|i: int| 0 <= i < N_QUESTIONS ==> r@[i] <= 7,
{
    let mut scores = [0u8; 200];
    for i in 0..N_QUESTIONS
        invariant
            scores@.len() == 200,
            answers@.len() == 200,
            forall|j: int| 0 <= j < i ==> scores@[j] == scoring_at(j).score_of(answers@[j]),
            forall|j: int| 0 <= j < 200 ==> scores@[j] <= 7,
    {
        let scoring = question_scoring(i);
        scores[i] = scoring.score_for_answer(answers[i]);
    }
    assert(scores@ =~= raw_of(answers@));
    RawScores { scores }
}

} // verus!
