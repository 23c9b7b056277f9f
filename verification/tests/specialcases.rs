use ta_calc::specialcases::{lab_only_courses, special_cases};

#[test]
fn no_spaces_in_special_case_course_names() {
    for sc in special_cases() {
        assert!(!sc.course.contains(" "));
    }
}

#[test]
fn no_spaces_in_lab_only_course_names() {
    for l in lab_only_courses() {
        assert!(!l.contains(" "));
    }
}

#[test]
fn special_case_course_names_are_distinct() {
    let cases = special_cases();
    for i in 0..cases.len() {
        for j in 0..cases.len() {
            if i != j {
                assert_ne!(cases[i].course, cases[j].course);
            }
        }
    }
    assert_eq!(cases.len(), 15);
    assert_eq!(lab_only_courses(), vec!["NE340L", "NE455A", "ECE198", "ECE298"]);
}
