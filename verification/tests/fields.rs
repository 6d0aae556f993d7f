use strawberry_fields::samples::{Empty, NotEmpty};
use strawberry_fields::StrawberryFields;

const EMPTY: Empty = Empty {};
const NOT_EMPTY: NotEmpty = NotEmpty {
    first: 1,
    second: 2,
};

#[test]
fn all_fields() {
    assert_eq!(NOT_EMPTY.all_fields(|num: u32| num == 0), false);
}

#[test]
fn all_fields_empty() {
    assert_eq!(EMPTY.all_fields(|num: u32| num == 0), true);
}

#[test]
fn all_fields_ref() {
    assert_eq!(NOT_EMPTY.all_fields_ref(|num: &u32| *num == 0), false);
}

#[test]
fn all_fields_ref_empty() {
    assert_eq!(EMPTY.all_fields_ref(|num: &u32| *num == 0), true);
}

#[test]
fn any_fields() {
    assert_eq!(NOT_EMPTY.any_fields(|num: u32| num == 1), true);
}

#[test]
fn any_fields_empty() {
    assert_eq!(EMPTY.any_fields(|num: u32| num == 1), false);
}

#[test]
fn any_fields_ref() {
    assert_eq!(NOT_EMPTY.any_fields_ref(|num: &u32| *num == 1), true);
}

#[test]
fn any_fields_ref_empty() {
    assert_eq!(EMPTY.any_fields_ref(|num: &u32| *num == 1), false);
}

#[test]
fn fold_fields() {
    assert_eq!(NOT_EMPTY.fold_fields(0, |i, acc| acc + i), 3);
}

#[test]
fn fold_fields_ref() {
    assert_eq!(NOT_EMPTY.fold_fields(0, |i, acc| acc + i), 3);
}

#[test]
fn fold_fields_empty() {
    assert_eq!(EMPTY.fold_fields(0, |i, acc| acc + i), 0);
}

#[test]
fn fold_fields_ref_empty() {
    assert_eq!(EMPTY.fold_fields(0, |i, acc| acc + i), 0);
}

#[test]
fn field_counts() {
    assert_eq!(<NotEmpty as StrawberryFields>::FIELD_COUNT, 2);
    assert_eq!(<Empty as StrawberryFields>::FIELD_COUNT, 0);
}

#[test]
fn all_fields_stops_at_first_rejection() {
    let mut seen = Vec::new();
    let answer = NOT_EMPTY.all_fields(|num: u32| {
        seen.push(num);
        num == 0
    });
    assert!(!answer);
    assert_eq!(seen, vec![1]);
}

#[test]
fn all_fields_accepts_every_field() {
    assert!(NOT_EMPTY.all_fields(|num: u32| num > 0));
}

#[test]
fn any_fields_rejects_every_field() {
    assert!(!NOT_EMPTY.any_fields(|num: u32| num > 2));
    assert!(!NOT_EMPTY.any_fields_ref(|num: &u32| *num > 2));
}

#[test]
fn find_field_first_match() {
    assert_eq!(NOT_EMPTY.find_field(|num: &u32| *num >= 1), Some(1));
    assert_eq!(NOT_EMPTY.find_field(|num: &u32| *num == 2), Some(2));
    assert_eq!(NOT_EMPTY.find_field(|num: &u32| *num == 3), None);
    assert_eq!(EMPTY.find_field(|_: &u32| true), None);
}

#[test]
fn find_field_ref_first_match() {
    assert_eq!(NOT_EMPTY.find_field_ref(|num: &u32| *num == 2), Some(&2));
    assert_eq!(NOT_EMPTY.find_field_ref(|num: &u32| *num == 7), None);
}

#[test]
fn fold_fields_ref_in_order() {
    let digits = NOT_EMPTY.fold_fields_ref(0u32, |i: &u32, acc: u32| acc * 10 + *i);
    assert_eq!(digits, 12);
    assert_eq!(EMPTY.fold_fields_ref(5u32, |i: &u32, acc: u32| acc + *i), 5);
}

#[test]
fn for_fields_visits_in_order() {
    let mut seen = Vec::new();
    NOT_EMPTY.for_fields(|num: u32| seen.push(num));
    assert_eq!(seen, vec![1, 2]);
    let mut seen_ref = Vec::new();
    NOT_EMPTY.for_fields_ref(|num: &u32| seen_ref.push(*num));
    assert_eq!(seen_ref, vec![1, 2]);
    let mut none = Vec::new();
    EMPTY.for_fields(|num: u32| none.push(num));
    assert!(none.is_empty());
}

#[test]
fn for_fields_mut_changes_every_field() {
    let mut value = NOT_EMPTY;
    value.for_fields_mut(|num: &mut u32| *num += 10);
    assert_eq!(value.first, 11);
    assert_eq!(value.second, 12);
}

#[test]
fn all_is_not_any_of_negation() {
    assert_eq!(NOT_EMPTY.all_fields(|n: u32| n > 1), !NOT_EMPTY.any_fields(|n: u32| !(n > 1)));
    assert_eq!(NOT_EMPTY.all_fields(|n: u32| n > 0), !NOT_EMPTY.any_fields(|n: u32| !(n > 0)));
}
