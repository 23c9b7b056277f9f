use vstd::prelude::*;

verus! {

/// How the hours of an allocation item scale with the course.
#[derive(Debug, Clone, Copy, PartialEq, Eq, Structural)]
pub enum CalculationRule {
    /// A fixed number of hours per term.
    PER_TERM,
    /// Hours per lecture section.
    PER_LEC_SECTION,
    /// Hours per enrolled student.
    PER_STUDENT,
    /// Hours per lab section, scaled by the TAs each lab section needs.
    PER_LAB,
}

/// Which kind of course an allocation item belongs to.
#[derive(Debug, Clone, Copy, PartialEq, Eq, Structural)]
pub enum AllocationType {
    /// Only for courses with lab sections.
    LAB,
    /// Only for courses without lab sections.
    NON_LAB,
    /// For every course that is not lab-only.
    LECTURE,
}

/// The level of a course, read from its code.
#[derive(Debug, Clone, Copy, PartialEq, Eq, Structural)]
pub enum CourseType {
    FIRST_YEAR,
    UNDERGRAD,
    GRAD,
}

/// How a special case overrides the computed allocation.
#[derive(Debug, Clone, Copy, PartialEq, Eq, Structural)]
pub enum AllocationRule {
    /// No TA allocation at all.
    NO_TA_ALLOC,
    /// At least the given amount.
    MIN_ALLOC,
    /// At most the given amount.
    MAX_ALLOC,
    /// The given amount per lecture section.
    PER_SECTION,
    /// The given amount per lab section.
    PER_LAB_SECTION,
    /// Exactly the given amount.
    FIXED,
}

} // verus!
