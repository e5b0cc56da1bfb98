//! The small closed sets of the questionnaire: answers, categories, sexes and
//! norm groups.
use vstd::prelude::*;

verus! {

/// An answer to one question.
#[derive(Clone, Copy, Debug, PartialEq, Eq, Structural)]
pub enum Answer {
    Yes,
    Maybe,
    No,
}

/// A category that measures one aspect of personality.
#[derive(Clone, Copy, Debug, PartialEq, Eq, Structural)]
pub enum Category {
    /// Stable / unstable
    A,
    /// Happy / depressed
    B,
    /// Composed / nervous
    C,
    /// Certainty / uncertainty
    D,
    /// Active / inactive
    E,
    /// Aggressive / inhibited
    F,
    /// Responsible / irresponsible
    G,
    /// Correct estimation / critical
    H,
    /// Appreciative / lack of accord
    I,
    /// Communication level / withdrawn
    J,
}

/// The position of a category in the order A..J.
pub open spec fn category_index(c: Category) -> nat {
    match c {
        Category::A => 0,
        Category::B => 1,
        Category::C => 2,
        Category::D => 3,
        Category::E => 4,
        Category::F => 5,
        Category::G => 6,
        Category::H => 7,
        Category::I => 8,
        Category::J => 9,
    }
}

/// The character code of the letter of a category: 'A' for the first, then on
/// in alphabetical order.
pub open spec fn letter_code(c: Category) -> u32 {
    (65 + category_index(c)) as u32
}

/// The category at each index 0..9 has the letter that far past 'A'.
pub proof fn lemma_index_letter(index: nat)
    requires
        index < 10,
    ensures
        category_index(all_categories()[index as int]) == index,
        letter_code(all_categories()[index as int]) == 65 + index,
        forall|c: Category| category_index(c) == index ==> c == all_categories()[index as int],
{
}

/// All ten categories, in order A..J.
pub open spec fn all_categories() -> Seq<Category> {
    seq![
        Category::A, Category::B, Category::C, Category::D, Category::E,
        Category::F, Category::G, Category::H, Category::I, Category::J,
    ]
}

impl Category {
    /// The category at `index` in the order A..J (0..9), or `None` past the last.
    pub fn from_index(index: u8) -> (r: Option<Category>)
        ensures
            index < 10 <==> r.is_some(),
            r matches Some(c) ==> category_index(c) == index,
    {
        match index {
            0 => Some(Category::A),
            1 => Some(Category::B),
            2 => Some(Category::C),
            3 => Some(Category::D),
            4 => Some(Category::E),
            5 => Some(Category::F),
            6 => Some(Category::G),
            7 => Some(Category::H),
            8 => Some(Category::I),
            9 => Some(Category::J),
            _ => None,
        }
    }

    /// The position of this category in the order A..J.
    pub fn index(self) -> (r: u8)
        ensures
            r as nat == category_index(self),
            r < 10,
    {
        match self {
            Category::A => 0,
            Category::B => 1,
            Category::C => 2,
            Category::D => 3,
            Category::E => 4,
            Category::F => 5,
            Category::G => 6,
            Category::H => 7,
            Category::I => 8,
            Category::J => 9,
        }
    }

    /// All categories, in order A..J.
    pub fn iter() -> (r: Vec<Category>)
        ensures
            r@ == all_categories(),
    {
        let r = vec![
            Category::A, Category::B, Category::C, Category::D, Category::E,
            Category::F, Category::G, Category::H, Category::I, Category::J,
        ];
        assert(r@ =~= all_categories());
        r
    }

    /// The letter of this category.
    pub fn letter(self) -> (r: char)
        ensures
            r as u32 == letter_code(self),
    {
        match self {
            Category::A => 'A',
            Category::B => 'B',
            Category::C => 'C',
            Category::D => 'D',
            Category::E => 'E',
            Category::F => 'F',
            Category::G => 'G',
            Category::H => 'H',
            Category::I => 'I',
            Category::J => 'J',
        }
    }
}

/// The two sexes that a norm group distinguishes.
#[derive(Clone, Copy, Debug, PartialEq, Eq, Structural)]
pub enum Sex {
    Male,
    Female,
}

/// An age/sex group for which there is a norm.
#[derive(Clone, Copy, Debug, PartialEq, Eq, Structural)]
pub enum NormGroup {
    /// Male, 14 to 17 years old.
    YoungMale,
    /// Male, 18 or older.
    AdultMale,
    /// Female, 14 to 17 years old.
    YoungFemale,
    /// Female, 18 or older.
    AdultFemale,
}

/// The norm group of a respondent, or `None` below the age of fourteen.
pub open spec fn norm_group_of(age: int, sex: Sex) -> Option<NormGroup> {
    if age < 14 {
        None
    } else if age <= 17 {
        Some(if sex == Sex::Male { NormGroup::YoungMale } else { NormGroup::YoungFemale })
    } else {
        Some(if sex == Sex::Male { NormGroup::AdultMale } else { NormGroup::AdultFemale })
    }
}

impl NormGroup {
    /// The norm group for an age and a sex: young from 14 to 17, adult from 18 on,
    /// and `None` below 14.
    pub fn from_age_and_sex(age: u8, sex: Sex) -> (r: Option<NormGroup>)
        ensures
            r == norm_group_of(age as int, sex),
    {
        match sex {
            Sex::Male => {
                if age < 14 {
                    None
                } else if age <= 17 {
                    Some(NormGroup::YoungMale)
                } else {
                    Some(NormGroup::AdultMale)
                }
            },
            Sex::Female => {
                if age < 14 {
                    None
                } else if age <= 17 {
                    Some(NormGroup::YoungFemale)
                } else {
                    Some(NormGroup::AdultFemale)
                }
            },
        }
    }
}

} // verus!
