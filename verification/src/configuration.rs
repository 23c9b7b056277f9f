use vstd::prelude::*;

use crate::types::{AllocationType, CalculationRule, CourseType};

verus! {

/// The hours of one full TA position, in hundredths of an hour.
pub const FULL_TA_HOURS_HUNDREDTHS: u32 = 13000;
/// Allocations below this fraction of a TA become zero, in hundredths of a TA.
pub const MIN_TA_THRESHOLD_HUNDREDTHS: u32 = 30;
/// Students that one TA can serve in a lab section, in hundredths of a student.
pub const LAB_RATIO_DENOMINATOR_HUNDREDTHS: u32 = 1500;
/// Extra hours for a first-year course per unit of weight and lecture hour, in hundredths of an hour.
pub const FIRST_YEAR_EXTRA_TA_HOURS_HUNDREDTHS: u32 = 6500;
/// TAs per lab section that the lab instructor takes over, in hundredths of a TA.
pub const LAB_INSTRUCTOR_ADJUSTMENT_HUNDREDTHS: u32 = 100;
/// The unit weight from which a first-year course gets extra hours, in hundredths.
pub const MIN_UNIT_WEIGHT_FOR_1YE_ADJUSTMENT_HUNDREDTHS: u32 = 100;

/// The fewest students for which an undergraduate course gets TA hours.
pub const MIN_ENROLLMENT_FOR_TA_ALLOC_UG: i32 = 20;
/// The fewest students for which a graduate course gets TA hours.
pub const MIN_ENROLLMENT_FOR_TA_ALLOC_GRAD: i32 = 15;

/// One item of TA work and how its hours are counted.
#[derive(Debug, Clone, Copy)]
pub struct TAHourAllocation {
    /// What the hours are for.
    pub name: &'static str,
    /// The hours per unit of the calculation rule, in hundredths of an hour.
    pub hours_hundredths: u32,
    /// What the hours are multiplied by.
    pub calc_rule: CalculationRule,
    /// Which courses the item applies to.
    pub alloc_type: AllocationType,
}

/// The items of an undergraduate course, in the order in which they are added up.
pub open spec fn undergraduate_table() -> Seq<TAHourAllocation> {
    seq![
        TAHourAllocation { name: "Midterm Marking", hours_hundredths: 20, calc_rule: CalculationRule::PER_STUDENT, alloc_type: AllocationType::LECTURE },
        TAHourAllocation { name: "Final Marking", hours_hundredths: 33, calc_rule: CalculationRule::PER_STUDENT, alloc_type: AllocationType::LECTURE },
        TAHourAllocation { name: "Tutorials", hours_hundredths: 1100, calc_rule: CalculationRule::PER_LEC_SECTION, alloc_type: AllocationType::LECTURE },
        TAHourAllocation { name: "Tutorial Prep", hours_hundredths: 1100, calc_rule: CalculationRule::PER_TERM, alloc_type: AllocationType::LECTURE },
        TAHourAllocation { name: "Office Hours", hours_hundredths: 1100, calc_rule: CalculationRule::PER_TERM, alloc_type: AllocationType::LECTURE },
        TAHourAllocation { name: "Office Hours Online", hours_hundredths: 17, calc_rule: CalculationRule::PER_STUDENT, alloc_type: AllocationType::LECTURE },
        TAHourAllocation { name: "Lab Delivery", hours_hundredths: 1500, calc_rule: CalculationRule::PER_LAB, alloc_type: AllocationType::LAB },
        TAHourAllocation { name: "Lab Prep", hours_hundredths: 500, calc_rule: CalculationRule::PER_LAB, alloc_type: AllocationType::LAB },
        TAHourAllocation { name: "Lab Marking", hours_hundredths: 0, calc_rule: CalculationRule::PER_STUDENT, alloc_type: AllocationType::LAB },
        TAHourAllocation { name: "Assignment Marking", hours_hundredths: 100, calc_rule: CalculationRule::PER_STUDENT, alloc_type: AllocationType::NON_LAB },
        TAHourAllocation { name: "Exam Proctoring", hours_hundredths: 17, calc_rule: CalculationRule::PER_STUDENT, alloc_type: AllocationType::LECTURE },
        TAHourAllocation { name: "Extra TA Hours", hours_hundredths: 0, calc_rule: CalculationRule::PER_TERM, alloc_type: AllocationType::LECTURE },
    ]
}

/// The items of an undergraduate course, in the order in which they are added up.
pub fn undergraduate_course() -> (r: Vec<TAHourAllocation>)
    ensures
        r@ == undergraduate_table(),
{
    let r = vec![
        TAHourAllocation { name: "Midterm Marking", hours_hundredths: 20, calc_rule: CalculationRule::PER_STUDENT, alloc_type: AllocationType::LECTURE },
        TAHourAllocation { name: "Final Marking", hours_hundredths: 33, calc_rule: CalculationRule::PER_STUDENT, alloc_type: AllocationType::LECTURE },
        TAHourAllocation { name: "Tutorials", hours_hundredths: 1100, calc_rule: CalculationRule::PER_LEC_SECTION, alloc_type: AllocationType::LECTURE },
        TAHourAllocation { name: "Tutorial Prep", hours_hundredths: 1100, calc_rule: CalculationRule::PER_TERM, alloc_type: AllocationType::LECTURE },
        TAHourAllocation { name: "Office Hours", hours_hundredths: 1100, calc_rule: CalculationRule::PER_TERM, alloc_type: AllocationType::LECTURE },
        TAHourAllocation { name: "Office Hours Online", hours_hundredths: 17, calc_rule: CalculationRule::PER_STUDENT, alloc_type: AllocationType::LECTURE },
        TAHourAllocation { name: "Lab Delivery", hours_hundredths: 1500, calc_rule: CalculationRule::PER_LAB, alloc_type: AllocationType::LAB },
        TAHourAllocation { name: "Lab Prep", hours_hundredths: 500, calc_rule: CalculationRule::PER_LAB, alloc_type: AllocationType::LAB },
        TAHourAllocation { name: "Lab Marking", hours_hundredths: 0, calc_rule: CalculationRule::PER_STUDENT, alloc_type: AllocationType::LAB },
        TAHourAllocation { name: "Assignment Marking", hours_hundredths: 100, calc_rule: CalculationRule::PER_STUDENT, alloc_type: AllocationType::NON_LAB },
        TAHourAllocation { name: "Exam Proctoring", hours_hundredths: 17, calc_rule: CalculationRule::PER_STUDENT, alloc_type: AllocationType::LECTURE },
        TAHourAllocation { name: "Extra TA Hours", hours_hundredths: 0, calc_rule: CalculationRule::PER_TERM, alloc_type: AllocationType::LECTURE },
    ];
    assert(r@ =~= undergraduate_table());
    r
}

/// The items of a graduate course, in the order in which they are added up.
pub open spec fn graduate_table() -> Seq<TAHourAllocation> {
    seq![
        TAHourAllocation { name: "Final Marking", hours_hundredths: 53, calc_rule: CalculationRule::PER_STUDENT, alloc_type: AllocationType::LECTURE },
        TAHourAllocation { name: "Tutorials", hours_hundredths: 1200, calc_rule: CalculationRule::PER_TERM, alloc_type: AllocationType::LECTURE },
        TAHourAllocation { name: "Office Hours", hours_hundredths: 1200, calc_rule: CalculationRule::PER_TERM, alloc_type: AllocationType::LECTURE },
        TAHourAllocation { name: "Assignment Marking", hours_hundredths: 100, calc_rule: CalculationRule::PER_STUDENT, alloc_type: AllocationType::LECTURE },
        TAHourAllocation { name: "Exam Proctoring", hours_hundredths: 300, calc_rule: CalculationRule::PER_TERM, alloc_type: AllocationType::LECTURE },
        TAHourAllocation { name: "Extra TA Hours", hours_hundredths: 0, calc_rule: CalculationRule::PER_TERM, alloc_type: AllocationType::LECTURE },
    ]
}

/// The items of a graduate course, in the order in which they are added up.
pub fn graduate_course() -> (r: Vec<TAHourAllocation>)
    ensures
        r@ == graduate_table(),
{
    let r = vec![
        TAHourAllocation { name: "Final Marking", hours_hundredths: 53, calc_rule: CalculationRule::PER_STUDENT, alloc_type: AllocationType::LECTURE },
        TAHourAllocation { name: "Tutorials", hours_hundredths: 1200, calc_rule: CalculationRule::PER_TERM, alloc_type: AllocationType::LECTURE },
        TAHourAllocation { name: "Office Hours", hours_hundredths: 1200, calc_rule: CalculationRule::PER_TERM, alloc_type: AllocationType::LECTURE },
        TAHourAllocation { name: "Assignment Marking", hours_hundredths: 100, calc_rule: CalculationRule::PER_STUDENT, alloc_type: AllocationType::LECTURE },
        TAHourAllocation { name: "Exam Proctoring", hours_hundredths: 300, calc_rule: CalculationRule::PER_TERM, alloc_type: AllocationType::LECTURE },
        TAHourAllocation { name: "Extra TA Hours", hours_hundredths: 0, calc_rule: CalculationRule::PER_TERM, alloc_type: AllocationType::LECTURE },
    ];
    assert(r@ =~= graduate_table());
    r
}

/// The items that a course of the given type is counted by.
pub open spec fn configuration_table(course_type: CourseType) -> Seq<TAHourAllocation> {
    match course_type {
        CourseType::FIRST_YEAR => undergraduate_table(),
        CourseType::UNDERGRAD => undergraduate_table(),
        CourseType::GRAD => graduate_table(),
    }
}

/// The items that a course of the given type is counted by: first-year and
/// undergraduate courses share the undergraduate items.
pub fn configuration_for(course_type: CourseType) -> (r: Vec<TAHourAllocation>)
    ensures
        r@ == configuration_table(course_type),
{
    match course_type {
        CourseType::FIRST_YEAR => undergraduate_course(),
        CourseType::UNDERGRAD => undergraduate_course(),
        CourseType::GRAD => graduate_course(),
    }
}

/// The fewest students for which a course of the given type gets TA hours.
pub open spec fn min_enrollment_spec(course_type: CourseType) -> i32 {
    match course_type {
        CourseType::GRAD => MIN_ENROLLMENT_FOR_TA_ALLOC_GRAD,
        _ => MIN_ENROLLMENT_FOR_TA_ALLOC_UG,
    }
}

/// The fewest students for which a course of the given type gets TA hours:
/// 15 for a graduate course, 20 otherwise.
pub fn min_enrollment_for(course_type: CourseType) -> (r: i32)
    ensures
        r == min_enrollment_spec(course_type),
{
    match course_type {
        CourseType::UNDERGRAD => MIN_ENROLLMENT_FOR_TA_ALLOC_UG,
        CourseType::GRAD => MIN_ENROLLMENT_FOR_TA_ALLOC_GRAD,
        CourseType::FIRST_YEAR => MIN_ENROLLMENT_FOR_TA_ALLOC_UG,
    }
}

} // verus!
