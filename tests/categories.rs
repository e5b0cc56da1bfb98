use oca_eval::{Category, NormGroup, Sex};

#[test]
fn from_index_covers_zero_to_nine() {
    let expected = [
        Category::A,
        Category::B,
        Category::C,
        Category::D,
        Category::E,
        Category::F,
        Category::G,
        Category::H,
        Category::I,
        Category::J,
    ];
    for (i, c) in expected.iter().enumerate() {
        assert_eq!(Category::from_index(i as u8), Some(*c));
        assert_eq!(c.index(), i as u8);
    }
}

#[test]
fn from_index_rejects_ten_and_above() {
    assert_eq!(Category::from_index(10), None);
    assert_eq!(Category::from_index(11), None);
    assert_eq!(Category::from_index(255), None);
}

#[test]
fn letters_follow_indices() {
    for c in 0u8..10 {
        let letter = Category::from_index(c).unwrap().letter();
        assert_eq!(letter, (b'A' + c) as char);
    }
    assert_eq!(Category::A.letter(), 'A');
    assert_eq!(Category::E.letter(), 'E');
    assert_eq!(Category::J.letter(), 'J');
}

#[test]
fn iter_lists_all_ten_in_order() {
    let all = Category::iter();
    assert_eq!(all.len(), 10);
    let letters: Vec<char> = all.iter().map(|c| c.letter()).collect();
    assert_eq!(letters, vec!['A', 'B', 'C', 'D', 'E', 'F', 'G', 'H', 'I', 'J']);
}

#[test]
fn norm_group_below_fourteen_is_absent() {
    for age in 0u8..14 {
        assert_eq!(NormGroup::from_age_and_sex(age, Sex::Male), None);
        assert_eq!(NormGroup::from_age_and_sex(age, Sex::Female), None);
    }
}

#[test]
fn norm_group_young_from_fourteen_to_seventeen() {
    for age in 14u8..=17 {
        assert_eq!(NormGroup::from_age_and_sex(age, Sex::Male), Some(NormGroup::YoungMale));
        assert_eq!(NormGroup::from_age_and_sex(age, Sex::Female), Some(NormGroup::YoungFemale));
    }
}

#[test]
fn norm_group_adult_from_eighteen_without_cap() {
    for age in 18u8..=255 {
        assert_eq!(NormGroup::from_age_and_sex(age, Sex::Male), Some(NormGroup::AdultMale));
        assert_eq!(NormGroup::from_age_and_sex(age, Sex::Female), Some(NormGroup::AdultFemale));
    }
}
