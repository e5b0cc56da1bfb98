//! Evaluation of Oxford Capacity Analysis (OCA) personality questionnaires.
//!
//! Two hundred answers are scored question by question, the scores are summed
//! per category, and each category sum is weighed against the norm of an
//! age/sex group.
use vstd::prelude::*;

pub mod category_map;
pub mod scoring;
pub mod types;
pub mod weighting;

pub use category_map::CategoryMap;
pub use scoring::{eval_raw, QuestionScoring, RawScores};
pub use types::{Answer, Category, NormGroup, Sex};
pub use weighting::{RawScoreForCategory, WeightTables};

verus! {

/// Number of personality categories.
pub const N_CATEGORIES: usize = 10;

/// Number of questions that belong to each category.
pub const QUESTIONS_PER_CATEGORY: usize = 20;

/// Number of questions in the questionnaire.
pub const N_QUESTIONS: usize = 200;

/// Number of raw category sums covered by a weighting curve.
pub const WEIGHT_DOMAIN_SIZE: usize = 81;

/// Smallest raw category sum covered by a weighting curve.
pub const WEIGHT_DOMAIN_START: u8 = 37;

} // verus!
