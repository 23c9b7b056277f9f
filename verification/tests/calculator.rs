use ta_calc::calculator::{
    allocation_type_applies, check_if_lab_only, classify_course, determine_course_type,
    find_special_case, level_of_course, plan_ta_hours, select_applicable, AllocationPlan,
};
use ta_calc::configuration::{
    configuration_for, graduate_course, min_enrollment_for, undergraduate_course, TAHourAllocation,
};
use ta_calc::types::AllocationRule;
use ta_calc::types::AllocationType::{LAB, LECTURE, NON_LAB};
use ta_calc::types::CalculationRule;
use ta_calc::types::CourseType::{FIRST_YEAR, GRAD, UNDERGRAD};

#[test]
fn determine_course_type_finds_course_if_1ye() {
    let course_name = String::from("ECE 150");

    let ct = determine_course_type(&course_name);

    assert_eq!(ct, FIRST_YEAR)
}

#[test]
fn determine_course_type_finds_course_if_not_1ye() {
    let course_name = String::from("ECE252");

    let ct = determine_course_type(&course_name);

    assert_eq!(ct, UNDERGRAD)
}

#[test]
fn determine_course_type_finds_course_if_grad() {
    let course_name = String::from("NE-650");

    let ct = determine_course_type(&course_name);

    assert_eq!(ct, GRAD)
}

#[test]
fn determine_course_type_boundary_level_5() {
    let course_name = String::from("ECE 599");

    let ct = determine_course_type(&course_name);

    assert_eq!(ct, UNDERGRAD);
}

#[test]
fn determine_course_type_boundary_level_6() {
    let course_name = String::from("ECE 600");

    let ct = determine_course_type(&course_name);

    assert_eq!(ct, GRAD);
}

#[test]
fn check_if_lab_only_identifies_lab_courses() {
    let result = check_if_lab_only("ECE198");
    assert_eq!(result, true);
}

#[test]
fn check_if_lab_only_identifies_lab_courses_with_space() {
    let result = check_if_lab_only("ECE 198");
    assert_eq!(result, true);
}

#[test]
fn check_if_lab_only_identifies_non_lab_courses() {
    let result = check_if_lab_only("ECE 150");
    assert_eq!(result, false);
}

#[test]
fn check_if_lab_only_identifies_ne340l() {
    let result = check_if_lab_only("NE 340L");
    assert_eq!(result, true);
}

#[test]
fn check_if_lab_only_identifies_non_existent_course_as_non_lab() {
    let result = check_if_lab_only("XYZ999");
    assert_eq!(result, false);
}

#[test]
fn check_if_lab_only_with_various_formats() {
    // Test different naming formats - LAB_ONLY_COURSES has uppercase entries
    assert_eq!(check_if_lab_only("ECE198"), true);
    assert_eq!(check_if_lab_only("ECE 198"), true);
    assert_eq!(check_if_lab_only("NE 340L"), true);
    assert_eq!(check_if_lab_only("ECE298"), true);
}

// Further cases of the library's own.

#[test]
fn check_if_lab_only_ignores_every_space() {
    assert!(check_if_lab_only(" N E 4 5 5 A "));
    assert!(!check_if_lab_only("NE455B"));
    assert!(!check_if_lab_only(""));
    assert!(!check_if_lab_only("ece198"));
}

#[test]
fn level_is_first_digit_of_ascii_code() {
    assert_eq!(level_of_course("ECE 150"), Some(1));
    assert_eq!(level_of_course("NE-650"), Some(6));
    assert_eq!(level_of_course("CS0"), Some(0));
    assert_eq!(level_of_course("ECE"), None);
    assert_eq!(level_of_course(""), None);
}

#[test]
fn level_reads_position_of_byte_offset() {
    // 'É' takes two bytes: the first digit starts at byte 3, and the
    // character at position 3 is the second digit.
    assert_eq!(level_of_course("ÉC17"), Some(7));
    // The byte offset lies past the last character.
    assert_eq!(level_of_course("ÉÉ1"), None);
    // The character at the byte offset is no digit.
    assert_eq!(level_of_course("ÉA1x"), None);
}

#[test]
fn classify_course_gives_none_without_level() {
    assert_eq!(classify_course("ECE"), None);
    assert_eq!(classify_course("ECE 105"), Some(FIRST_YEAR));
    assert_eq!(classify_course("ECE 005"), Some(UNDERGRAD));
    assert_eq!(classify_course("ECE 900"), Some(GRAD));
}

#[test]
fn min_enrollment_per_course_type() {
    assert_eq!(min_enrollment_for(FIRST_YEAR), 20);
    assert_eq!(min_enrollment_for(UNDERGRAD), 20);
    assert_eq!(min_enrollment_for(GRAD), 15);
}

#[test]
fn configuration_per_course_type() {
    assert_eq!(configuration_for(FIRST_YEAR).len(), 12);
    assert_eq!(configuration_for(UNDERGRAD).len(), 12);
    assert_eq!(configuration_for(GRAD).len(), 6);
    let ug = undergraduate_course();
    assert_eq!(ug[1].name, "Final Marking");
    assert_eq!(ug[1].hours_hundredths, 33);
    assert_eq!(ug[2].calc_rule, CalculationRule::PER_LEC_SECTION);
    let grad = graduate_course();
    assert_eq!(grad[0].hours_hundredths, 53);
    assert_eq!(grad[4].calc_rule, CalculationRule::PER_TERM);
}

#[test]
fn allocation_types_that_apply() {
    assert!(!allocation_type_applies(NON_LAB, 2, false));
    assert!(allocation_type_applies(LAB, 2, false));
    assert!(allocation_type_applies(LECTURE, 2, false));
    assert!(!allocation_type_applies(LAB, 0, false));
    assert!(allocation_type_applies(NON_LAB, 0, false));
    assert!(!allocation_type_applies(LECTURE, 3, true));
    assert!(allocation_type_applies(LAB, 3, true));
    // A negative count is neither zero nor positive.
    assert!(allocation_type_applies(LAB, -1, false));
    assert!(allocation_type_applies(NON_LAB, -1, false));
}

fn names(items: &Vec<TAHourAllocation>) -> Vec<&'static str> {
    items.iter().map(|a| a.name).collect()
}

#[test]
fn select_applicable_keeps_order() {
    let ug = undergraduate_course();
    let with_labs = select_applicable(&ug, 3, false);
    assert_eq!(
        names(&with_labs),
        vec![
            "Midterm Marking",
            "Final Marking",
            "Tutorials",
            "Tutorial Prep",
            "Office Hours",
            "Office Hours Online",
            "Lab Delivery",
            "Lab Prep",
            "Lab Marking",
            "Exam Proctoring",
            "Extra TA Hours"
        ]
    );
    let without_labs = select_applicable(&ug, 0, false);
    assert_eq!(without_labs.len(), 9);
    assert_eq!(without_labs[6].name, "Assignment Marking");
    let lab_only = select_applicable(&ug, 4, true);
    assert_eq!(names(&lab_only), vec!["Lab Delivery", "Lab Prep", "Lab Marking"]);
    let lab_only_no_sections = select_applicable(&ug, 0, true);
    assert!(lab_only_no_sections.is_empty());
}

#[test]
fn plan_below_minimum_enrollment() {
    match plan_ta_hours("MTE221", 19, 0) {
        Some(AllocationPlan::BelowMinimum { course_type, min_enrollment }) => {
            assert_eq!(course_type, UNDERGRAD);
            assert_eq!(min_enrollment, 20);
        }
        other => panic!("unexpected plan {:?}", other),
    }
    match plan_ta_hours("ECE 602", 9, 0) {
        Some(AllocationPlan::BelowMinimum { course_type, min_enrollment }) => {
            assert_eq!(course_type, GRAD);
            assert_eq!(min_enrollment, 15);
        }
        other => panic!("unexpected plan {:?}", other),
    }
}

#[test]
fn plan_at_minimum_enrollment() {
    match plan_ta_hours("ECE 602", 15, 0) {
        Some(AllocationPlan::Items { course_type, lab_only, items }) => {
            assert_eq!(course_type, GRAD);
            assert!(!lab_only);
            assert_eq!(items.len(), 6);
        }
        other => panic!("unexpected plan {:?}", other),
    }
    match plan_ta_hours("ECE 405C", 20, 0) {
        Some(AllocationPlan::Items { course_type, items, .. }) => {
            assert_eq!(course_type, UNDERGRAD);
            assert_eq!(items.len(), 9);
        }
        other => panic!("unexpected plan {:?}", other),
    }
}

#[test]
fn plan_lab_only_course() {
    match plan_ta_hours("ECE 198", 100, 4) {
        Some(AllocationPlan::Items { course_type, lab_only, items }) => {
            assert_eq!(course_type, FIRST_YEAR);
            assert!(lab_only);
            assert_eq!(names(&items), vec!["Lab Delivery", "Lab Prep", "Lab Marking"]);
        }
        other => panic!("unexpected plan {:?}", other),
    }
}

#[test]
fn plan_without_level() {
    assert!(plan_ta_hours("NOLEVEL", 100, 0).is_none());
}

#[test]
fn find_special_case_by_name() {
    let capstone = find_special_case("ECE 498A").unwrap();
    assert_eq!(capstone.course, "ECE498A");
    assert_eq!(capstone.allocation_rule, AllocationRule::NO_TA_ALLOC);
    assert_eq!(capstone.reason, "Capstone Course");
    let capped = find_special_case("ECE459").unwrap();
    assert_eq!(capped.allocation_rule, AllocationRule::MAX_ALLOC);
    assert_eq!(capped.allocation_amount_hundredths, 600);
    let per_lab = find_special_case("E C E 4 7 4").unwrap();
    assert_eq!(per_lab.allocation_rule, AllocationRule::PER_LAB_SECTION);
    assert_eq!(per_lab.allocation_amount_hundredths, 40);
    assert!(find_special_case("ECE 150").is_none());
    assert!(find_special_case("ECE498").is_none());
    assert!(find_special_case("").is_none());
}

#[test]
fn capstone_courses_get_no_ta_rule() {
    for name in ["ECE498A", "ECE 498B", "MTE 482"] {
        assert_eq!(find_special_case(name).unwrap().allocation_rule, AllocationRule::NO_TA_ALLOC);
    }
}

#[test]
fn cleanroom_and_lab_special_cases() {
    for name in ["NE 340L", "NE340L"] {
        let sc = find_special_case(name).unwrap();
        assert_eq!(sc.course, "NE340L");
        assert_eq!(sc.allocation_rule, AllocationRule::FIXED);
        assert_eq!(sc.allocation_amount_hundredths, 250);
    }
    let ne455b = find_special_case("NE 455B").unwrap();
    assert_eq!(ne455b.allocation_rule, AllocationRule::MIN_ALLOC);
    assert_eq!(ne455b.allocation_amount_hundredths, 250);
    let ne343 = find_special_case("NE343").unwrap();
    assert_eq!(ne343.course, "NE343");
    assert_eq!(ne343.allocation_rule, AllocationRule::FIXED);
    assert_eq!(ne343.allocation_amount_hundredths, 250);
    let ece298 = find_special_case("ECE298").unwrap();
    assert_eq!(ece298.allocation_rule, AllocationRule::PER_SECTION);
    assert_eq!(ece298.allocation_amount_hundredths, 200);
    // Three lecture sections at two TAs each.
    assert_eq!(ece298.allocation_amount_hundredths * 3, 600);
}
