use crop_time::places::{has_marked, marked_places};

#[test]
fn marked_places_are_listed_in_rising_order() {
    assert_eq!(marked_places(&vec![false, true, true, false, true]), vec![1, 2, 4]);
}

#[test]
fn no_marks_no_places() {
    assert_eq!(marked_places(&vec![false, false]), Vec::<usize>::new());
    assert_eq!(marked_places(&Vec::new()), Vec::<usize>::new());
}

#[test]
fn all_marks_all_places() {
    assert_eq!(marked_places(&vec![true, true, true]), vec![0, 1, 2]);
}

#[test]
fn has_marked_finds_a_mark_anywhere() {
    assert!(has_marked(&vec![true, false, false]));
    assert!(has_marked(&vec![false, false, true]));
    assert!(!has_marked(&vec![false, false, false]));
    assert!(!has_marked(&Vec::new()));
}
