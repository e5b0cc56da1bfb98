//! Weighing a raw category sum against the norm of an age/sex group.
use vstd::prelude::*;

use crate::types::{category_index, Category, NormGroup};
use crate::{WEIGHT_DOMAIN_SIZE, WEIGHT_DOMAIN_START};

verus! {

/// The weighting curves of the four norm groups. Row `c` of a group's table holds
/// the weighted score of every raw sum of category `c` from 37 to 117; column
/// `k` is for the raw sum 37 + k.
pub struct WeightTables {
    pub young_male: [[i8; 81]; 10],
    pub young_female: [[i8; 81]; 10],
    pub adult_male: [[i8; 81]; 10],
    pub adult_female: [[i8; 81]; 10],
}

impl WeightTables {
    /// The table of `group`.
    pub open spec fn table(self, group: NormGroup) -> [[i8; 81]; 10] {
        match group {
            NormGroup::YoungMale => self.young_male,
            NormGroup::YoungFemale => self.young_female,
            NormGroup::AdultMale => self.adult_male,
            NormGroup::AdultFemale => self.adult_female,
        }
    }

    /// The cell of `group` and `category` in column `k`.
    pub open spec fn cell(self, group: NormGroup, category: Category, k: int) -> i8 {
        self.table(group)@[category_index(category) as int]@[k]
    }
}

/// The weighted score of a raw sum: the tabulated cell where the sum lies in
/// 37..=117, else `None`.
pub open spec fn weighted(tables: WeightTables, group: NormGroup, category: Category, raw: int) -> Option<i8> {
    if 37 <= raw <= 117 {
        Some(tables.cell(group, category, raw - 37))
    } else {
        None
    }
}

/// Inside the weighting domain a raw sum of 37 + `k` is weighed to the cell in
/// column `k`.
pub proof fn lemma_weighted_in_domain(tables: WeightTables, group: NormGroup, category: Category, k: int)
    requires
        0 <= k <= 80,
    ensures
        weighted(tables, group, category, 37 + k) == Some(tables.cell(group, category, k)),
{
}

/// The raw score of one category: the sum of the scores of its twenty questions,
/// at most 140.
pub struct RawScoreForCategory {
    value: u8,
    category: Category,
}

impl RawScoreForCategory {
    #[verifier::type_invariant]
    spec fn value_in_range(self) -> bool {
        self.value <= 140
    }

    pub(crate) fn new(value: u8, category: Category) -> (r: RawScoreForCategory)
        requires
            value <= 140,
        ensures
            r@ == (value, category),
    {
        RawScoreForCategory { value, category }
    }

    /// Weighs this score against the norm of `group`, giving the score shown on
    /// the graph; `None` where the raw sum lies outside 37..=117.
    pub fn weigh(&self, group: NormGroup, tables: &WeightTables) -> (r: Option<i8>)
        ensures
            r == weighted(*tables, group, self@.1, self@.0 as int),
    {
        if self.value < WEIGHT_DOMAIN_START {
            return None;
        }
        let column = (self.value - WEIGHT_DOMAIN_START) as usize;
        if column >= WEIGHT_DOMAIN_SIZE {
            return None;
        }
        let table = match group {
            NormGroup::YoungMale => &tables.young_male,
            NormGroup::YoungFemale => &tables.young_female,
            NormGroup::AdultMale => &tables.adult_male,
            NormGroup::AdultFemale => &tables.adult_female,
        };
        let row = &table[self.category.index() as usize];
        Some(row[column])
    }

    /// The raw sum.
    pub fn value(&self) -> (r: u8)
        ensures
            r == self@.0,
            r <= 140,
    {
        proof { use_type_invariant(self); }
        self.value
    }

    /// The category of this score.
    pub fn category(&self) -> (r: Category)
        ensures
            r == self@.1,
    {
        self.category
    }
}

impl View for RawScoreForCategory {
    type V = (u8, Category);

    closed spec fn view(&self) -> (u8, Category) {
        (self.value, self.category)
    }
}

} // verus!
