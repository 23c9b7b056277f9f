use vstd::prelude::*;

use crate::types::AllocationRule;

verus! {

/// A course whose allocation does not follow the usual calculation.
#[derive(Debug, Clone, Copy)]
pub struct SpecialCase {
    /// The course code, without spaces.
    pub course: &'static str,
    /// Why the course is special.
    pub reason: &'static str,
    /// How the computed allocation is overridden.
    pub allocation_rule: AllocationRule,
    /// The amount the rule uses, in hundredths of a full TA.
    pub allocation_amount_hundredths: u32,
}

/// The special cases, in the order in which they are searched.
pub open spec fn special_case_table() -> Seq<SpecialCase> {
    seq![
        SpecialCase { course: "ECE498A", reason: "Capstone Course", allocation_rule: AllocationRule::NO_TA_ALLOC, allocation_amount_hundredths: 0 },
        SpecialCase { course: "ECE498B", reason: "Capstone Course", allocation_rule: AllocationRule::NO_TA_ALLOC, allocation_amount_hundredths: 0 },
        SpecialCase { course: "MTE482", reason: "Capstone Course", allocation_rule: AllocationRule::NO_TA_ALLOC, allocation_amount_hundredths: 0 },
        SpecialCase { course: "NE340L", reason: "Cleanroom Lab Course", allocation_rule: AllocationRule::FIXED, allocation_amount_hundredths: 250 },
        SpecialCase { course: "NE343", reason: "Cleanroom Lab Course", allocation_rule: AllocationRule::FIXED, allocation_amount_hundredths: 250 },
        SpecialCase { course: "ECE459", reason: "Project Course", allocation_rule: AllocationRule::MAX_ALLOC, allocation_amount_hundredths: 600 },
        SpecialCase { course: "NE455B", reason: "Cleanroom Lab Course", allocation_rule: AllocationRule::MIN_ALLOC, allocation_amount_hundredths: 250 },
        SpecialCase { course: "NE409", reason: "Half-Credit No TA Course", allocation_rule: AllocationRule::NO_TA_ALLOC, allocation_amount_hundredths: 0 },
        SpecialCase { course: "ECE190", reason: "1 TA per Section 1st Year Course", allocation_rule: AllocationRule::PER_SECTION, allocation_amount_hundredths: 100 },
        SpecialCase { course: "ECE298", reason: "Hands-On Lab Course", allocation_rule: AllocationRule::PER_SECTION, allocation_amount_hundredths: 200 },
        SpecialCase { course: "ECE198", reason: "Hands-On Lab Course", allocation_rule: AllocationRule::FIXED, allocation_amount_hundredths: 800 },
        SpecialCase { course: "ECE464", reason: "High Voltage Lab", allocation_rule: AllocationRule::MIN_ALLOC, allocation_amount_hundredths: 100 },
        SpecialCase { course: "ECE474", reason: "Lab Safety", allocation_rule: AllocationRule::PER_LAB_SECTION, allocation_amount_hundredths: 40 },
        SpecialCase { course: "NE216L", reason: "Nano Lab", allocation_rule: AllocationRule::FIXED, allocation_amount_hundredths: 100 },
        SpecialCase { course: "NE217L", reason: "Nano Lab -- Combined with 216L", allocation_rule: AllocationRule::FIXED, allocation_amount_hundredths: 0 },
    ]
}

/// The special cases, in the order in which they are searched.
pub fn special_cases() -> (r: Vec<SpecialCase>)
    ensures
        r@ == special_case_table(),
{
    let r = vec![
        SpecialCase { course: "ECE498A", reason: "Capstone Course", allocation_rule: AllocationRule::NO_TA_ALLOC, allocation_amount_hundredths: 0 },
        SpecialCase { course: "ECE498B", reason: "Capstone Course", allocation_rule: AllocationRule::NO_TA_ALLOC, allocation_amount_hundredths: 0 },
        SpecialCase { course: "MTE482", reason: "Capstone Course", allocation_rule: AllocationRule::NO_TA_ALLOC, allocation_amount_hundredths: 0 },
        SpecialCase { course: "NE340L", reason: "Cleanroom Lab Course", allocation_rule: AllocationRule::FIXED, allocation_amount_hundredths: 250 },
        SpecialCase { course: "NE343", reason: "Cleanroom Lab Course", allocation_rule: AllocationRule::FIXED, allocation_amount_hundredths: 250 },
        SpecialCase { course: "ECE459", reason: "Project Course", allocation_rule: AllocationRule::MAX_ALLOC, allocation_amount_hundredths: 600 },
        SpecialCase { course: "NE455B", reason: "Cleanroom Lab Course", allocation_rule: AllocationRule::MIN_ALLOC, allocation_amount_hundredths: 250 },
        SpecialCase { course: "NE409", reason: "Half-Credit No TA Course", allocation_rule: AllocationRule::NO_TA_ALLOC, allocation_amount_hundredths: 0 },
        SpecialCase { course: "ECE190", reason: "1 TA per Section 1st Year Course", allocation_rule: AllocationRule::PER_SECTION, allocation_amount_hundredths: 100 },
        SpecialCase { course: "ECE298", reason: "Hands-On Lab Course", allocation_rule: AllocationRule::PER_SECTION, allocation_amount_hundredths: 200 },
        SpecialCase { course: "ECE198", reason: "Hands-On Lab Course", allocation_rule: AllocationRule::FIXED, allocation_amount_hundredths: 800 },
        SpecialCase { course: "ECE464", reason: "High Voltage Lab", allocation_rule: AllocationRule::MIN_ALLOC, allocation_amount_hundredths: 100 },
        SpecialCase { course: "ECE474", reason: "Lab Safety", allocation_rule: AllocationRule::PER_LAB_SECTION, allocation_amount_hundredths: 40 },
        SpecialCase { course: "NE216L", reason: "Nano Lab", allocation_rule: AllocationRule::FIXED, allocation_amount_hundredths: 100 },
        SpecialCase { course: "NE217L", reason: "Nano Lab -- Combined with 216L", allocation_rule: AllocationRule::FIXED, allocation_amount_hundredths: 0 },
    ];
    assert(r@ =~= special_case_table());
    r
}

/// The courses that consist of labs only.
pub open spec fn lab_only_table() -> Seq<&'static str> {
    seq!["NE340L", "NE455A", "ECE198", "ECE298"]
}

/// The courses that consist of labs only.
pub fn lab_only_courses() -> (r: Vec<&'static str>)
    ensures
        r@ == lab_only_table(),
{
    let r = vec!["NE340L", "NE455A", "ECE198", "ECE298"];
    assert(r@ =~= lab_only_table());
    r
}

} // verus!
