use vstd::prelude::*;

use crate::specialcases::{lab_only_courses, lab_only_table, special_case_table, special_cases, SpecialCase};
use crate::configuration::{configuration_for, configuration_table, min_enrollment_for, min_enrollment_spec, TAHourAllocation};
use crate::types::{AllocationType, CourseType};
use crate::text::{chars_equal, chars_of, remove_spaces, without_spaces};

verus! {

/// Whether `name`, with its spaces taken out, is one of the lab-only courses.
pub open spec fn is_lab_only_name(name: Seq<char>) -> bool {
    exists|i: int| 0 <= i < lab_only_table().len() && #[trigger] lab_only_table()[i]@ == remove_spaces(name)
}

/// Whether the course is one of the lab-only courses; spaces in the name are ignored.
pub fn check_if_lab_only(course_name: &str) -> (r: bool)
    ensures
        r == is_lab_only_name(course_name@),
        r <==> exists|i: int|
            0 <= i < lab_only_table().len() && #[trigger] lab_only_table()[i]@ == remove_spaces(course_name@),
        r <==> {
            ||| remove_spaces(course_name@) == "NE340L"@
            ||| remove_spaces(course_name@) == "NE455A"@
            ||| remove_spaces(course_name@) == "ECE198"@
            ||| remove_spaces(course_name@) == "ECE298"@
        },
{
    proof {
        let key = remove_spaces(course_name@);
        if key == "NE340L"@ { assert(lab_only_table()[0]@ == key); }
        if key == "NE455A"@ { assert(lab_only_table()[1]@ == key); }
        if key == "ECE198"@ { assert(lab_only_table()[2]@ == key); }
        if key == "ECE298"@ { assert(lab_only_table()[3]@ == key); }
    }
    let key = without_spaces(course_name);
    let table = lab_only_courses();
    let mut i: usize = 0;
    while i < table.len()
        invariant
            key@ == remove_spaces(course_name@),
            table@ == lab_only_table(),
            i <= table.len(),
            forall|j: int| 0 <= j < i ==> #[trigger] lab_only_table()[j]@ != key@,
        decreases table.len() - i,
    {
        let candidate = chars_of(table[i]);
        if chars_equal(&candidate, &key) {
            return true;
        }
        i = i + 1;
    }
    false
}

/// The first entry of `table` whose course is `key`.
pub open spec fn first_special_case(table: Seq<SpecialCase>, key: Seq<char>) -> Option<SpecialCase>
    decreases table.len(),
{
    if table.len() == 0 {
        None
    } else if table[0].course@ == key {
        Some(table[0])
    } else {
        first_special_case(table.drop_first(), key)
    }
}

/// The special case that applies to a course name: the first entry of the
/// table whose course is the name with its spaces taken out.
pub open spec fn special_case_for(name: Seq<char>) -> Option<SpecialCase> {
    first_special_case(special_case_table(), remove_spaces(name))
}

/// The special case of the course, if it has one; spaces in the name are ignored.
pub fn find_special_case(course_name: &str) -> (r: Option<SpecialCase>)
    ensures
        r == special_case_for(course_name@),
{
    let key = without_spaces(course_name);
    let table = special_cases();
    let mut i: usize = 0;
    assert(table@.subrange(0, table@.len() as int) =~= table@);
    while i < table.len()
        invariant
            key@ == remove_spaces(course_name@),
            table@ == special_case_table(),
            i <= table.len(),
            first_special_case(table@.subrange(i as int, table@.len() as int), key@)
                == special_case_for(course_name@),
        decreases table.len() - i,
    {
        let candidate = chars_of(table[i].course);
        proof {
            let rest = table@.subrange(i as int, table@.len() as int);
            assert(rest.drop_first() =~= table@.subrange(i + 1, table@.len() as int));
        }
        if chars_equal(&candidate, &key) {
            return Some(table[i]);
        }
        i = i + 1;
    }
    None
}


/// Whether std's `char::is_numeric` holds of `c`: whether `c` is in one of
/// the Unicode general categories for numbers.
pub uninterp spec fn char_is_numeric(c: char) -> bool;

/// Calls `char::is_numeric`. Trusted: the result is named `char_is_numeric`;
/// besides, of the ASCII characters exactly the digits '0' to '9' are numeric
/// (std answers ASCII characters by that range and only looks the others up in
/// its Unicode tables). What it answers for other characters is left unsaid.
#[verifier::external_body]
fn is_numeric(c: char) -> (r: bool)
    ensures
        r == char_is_numeric(c),
        ('0' <= c && c <= '9') ==> r,
        ((c as u32) < 128 && !('0' <= c && c <= '9')) ==> !r,
{
    c.is_numeric()
}

/// The number of bytes that the UTF-8 encoding of `c` takes.
pub open spec fn utf8_width(c: char) -> int {
    if (c as u32) < 0x80 {
        1
    } else if (c as u32) < 0x800 {
        2
    } else if (c as u32) < 0x10000 {
        3
    } else {
        4
    }
}

/// The number of bytes that the UTF-8 encoding of the first `k` characters of `s` takes.
pub open spec fn utf8_offset(s: Seq<char>, k: int) -> int
    decreases k,
{
    if k <= 0 {
        0
    } else {
        utf8_offset(s, k - 1) + utf8_width(s[k - 1])
    }
}

/// The position of the first numeric character of `s` at or after `k`.
pub open spec fn first_numeric_from(s: Seq<char>, k: int) -> Option<int>
    decreases s.len() - k,
{
    if k < 0 || k >= s.len() {
        None
    } else if char_is_numeric(s[k]) {
        Some(k)
    } else {
        first_numeric_from(s, k + 1)
    }
}

/// Whether `c` is one of the decimal digits '0' to '9'.
pub open spec fn is_decimal_digit(c: char) -> bool {
    '0' <= c && c <= '9'
}

/// The level of a course code: its first numeric character is found, and the
/// UTF-8 byte offset at which it starts is then read as a character position;
/// the level is the decimal digit found there. `None` where there is no
/// numeric character, no character at that position, or no decimal digit.
/// (For a name in ASCII the position is that of the first digit itself.)
pub open spec fn course_level(name: Seq<char>) -> Option<u32> {
    match first_numeric_from(name, 0) {
        None => None,
        Some(i) => {
            let b = utf8_offset(name, i);
            if b < name.len() && is_decimal_digit(name[b]) {
                Some((name[b] as u32 - '0' as u32) as u32)
            } else {
                None
            }
        },
    }
}

/// The course type of a level: 1 is first year, below 6 undergraduate, else graduate.
pub open spec fn course_type_for_level(level: u32) -> CourseType {
    if level == 1 {
        CourseType::FIRST_YEAR
    } else if level < 6 {
        CourseType::UNDERGRAD
    } else {
        CourseType::GRAD
    }
}

/// The course type of a course code, where it has a level.
pub open spec fn course_type_of(name: Seq<char>) -> Option<CourseType> {
    match course_level(name) {
        None => None,
        Some(level) => Some(course_type_for_level(level)),
    }
}

/// The course type that the first decimal digit of `s` gives, if it has one.
pub open spec fn first_digit_course_type(s: Seq<char>) -> Option<CourseType> {
    match first_digit_level(s) {
        None => None,
        Some(level) => Some(course_type_for_level(level)),
    }
}

fn utf8_width_of(c: char) -> (w: u128)
    ensures
        w == utf8_width(c),
        1 <= w <= 4,
{
    let code = c as u32;
    if code < 0x80 {
        1
    } else if code < 0x800 {
        2
    } else if code < 0x10000 {
        3
    } else {
        4
    }
}

/// The position of the first decimal digit of `s` at or after `k`.
pub open spec fn first_digit_from(s: Seq<char>, k: int) -> Option<int>
    decreases s.len() - k,
{
    if k < 0 || k >= s.len() {
        None
    } else if is_decimal_digit(s[k]) {
        Some(k)
    } else {
        first_digit_from(s, k + 1)
    }
}

/// Whether every character of `s` is an ASCII character.
pub open spec fn is_ascii_name(s: Seq<char>) -> bool {
    forall|j: int| 0 <= j < s.len() ==> (#[trigger] s[j] as u32) < 128
}

/// The value of the first decimal digit of `s`, if it has one.
pub open spec fn first_digit_level(s: Seq<char>) -> Option<u32> {
    match first_digit_from(s, 0) {
        None => None,
        Some(i) => Some((s[i] as u32 - '0' as u32) as u32),
    }
}

/// The level of a course code (see `course_level`); for a code in ASCII it is
/// the value of its first decimal digit.
pub fn level_of_course(course_name: &str) -> (r: Option<u32>)
    ensures
        r == course_level(course_name@),
        is_ascii_name(course_name@) ==> r == first_digit_level(course_name@),
{
    let chars = chars_of(course_name);
    let ghost s = chars@;
    let mut k: usize = 0;
    let mut offset: u128 = 0;
    while k < chars.len()
        invariant
            chars@ == course_name@,
            s == chars@,
            k <= chars.len(),
            offset == utf8_offset(s, k as int),
            offset <= 4 * k,
            first_numeric_from(s, k as int) == first_numeric_from(s, 0),
            is_ascii_name(s) ==> offset == k,
            is_ascii_name(s) ==> first_digit_from(s, k as int) == first_digit_from(s, 0),
        decreases chars.len() - k,
    {
        let c = chars[k];
        if is_numeric(c) {
            if offset < chars.len() as u128 {
                let d = chars[offset as usize];
                if '0' <= d && d <= '9' {
                    return Some(d as u32 - '0' as u32);
                }
            }
            proof {
                if is_ascii_name(s) {
                    assert((s[k as int] as u32) < 128);
                }
            }
            return None;
        }
        proof {
            if is_ascii_name(s) {
                assert((s[k as int] as u32) < 128);
            }
        }
        offset = offset + utf8_width_of(c);
        k = k + 1;
    }
    None
}

/// The course type of a course code: a first digit of 1 is first year, of
/// less than 6 undergraduate, otherwise graduate (see `course_level` for
/// which character counts as the first digit).
pub fn determine_course_type(course_name: &str) -> (r: CourseType)
    requires
        course_level(course_name@) is Some,
    ensures
        Some(r) == course_type_of(course_name@),
        is_ascii_name(course_name@) ==> Some(r) == first_digit_course_type(course_name@),
        r == CourseType::FIRST_YEAR <==> course_level(course_name@) == Some(1u32),
        r == CourseType::UNDERGRAD <==> (course_level(course_name@) matches Some(l) && (l == 0 || 2 <= l <= 5)),
        r == CourseType::GRAD <==> (course_level(course_name@) matches Some(l) && 6 <= l <= 9),
{
    proof {
        crate::laws::lemma_course_type_by_level(course_name@);
    }
    match level_of_course(course_name) {
        Some(level) => {
            if level == 1 {
                CourseType::FIRST_YEAR
            } else if level < 6 {
                CourseType::UNDERGRAD
            } else {
                CourseType::GRAD
            }
        },
        None => {
            proof {
                assert(false);
            }
            CourseType::GRAD
        },
    }
}

/// The course type of a course code, or `None` where the code has no level
/// (where `determine_course_type` cannot be called).
pub fn classify_course(course_name: &str) -> (r: Option<CourseType>)
    ensures
        r == course_type_of(course_name@),
        is_ascii_name(course_name@) ==> r == first_digit_course_type(course_name@),
        r is None <==> course_level(course_name@) is None,
        r == Some(CourseType::FIRST_YEAR) <==> course_level(course_name@) == Some(1u32),
        r == Some(CourseType::UNDERGRAD) <==> (course_level(course_name@) matches Some(l) && (l == 0 || 2 <= l <= 5)),
        r == Some(CourseType::GRAD) <==> (course_level(course_name@) matches Some(l) && 6 <= l <= 9),
{
    proof {
        crate::laws::lemma_course_type_by_level(course_name@);
    }
    if level_of_course(course_name).is_some() {
        Some(determine_course_type(course_name))
    } else {
        None
    }
}


/// Whether an item of the given type counts for a course with `lab_sections`
/// lab sections: a course with lab sections skips the non-lab items, a course
/// without any skips the lab items, and a lab-only course counts lab items only.
pub open spec fn allocation_applies(alloc_type: AllocationType, lab_sections: int, lab_only: bool) -> bool {
    &&& !(lab_sections > 0 && alloc_type == AllocationType::NON_LAB)
    &&& !(lab_sections == 0 && alloc_type == AllocationType::LAB)
    &&& !(lab_only && alloc_type != AllocationType::LAB)
}

/// The items of `items` that count for the course, in their order.
pub open spec fn applicable_items(items: Seq<TAHourAllocation>, lab_sections: int, lab_only: bool) -> Seq<TAHourAllocation> {
    items.filter(|a: TAHourAllocation| allocation_applies(a.alloc_type, lab_sections, lab_only))
}

proof fn lemma_applicable_items_push(items: Seq<TAHourAllocation>, a: TAHourAllocation, lab_sections: int, lab_only: bool)
    ensures
        applicable_items(items.push(a), lab_sections, lab_only) == if allocation_applies(a.alloc_type, lab_sections, lab_only) {
            applicable_items(items, lab_sections, lab_only).push(a)
        } else {
            applicable_items(items, lab_sections, lab_only)
        },
{
    reveal_with_fuel(Seq::filter, 1);
    assert(items.push(a).drop_last() =~= items);
}

/// Whether an item of the given type counts for the course (see `allocation_applies`).
pub fn allocation_type_applies(alloc_type: AllocationType, lab_sections: i32, lab_only: bool) -> (r: bool)
    ensures
        r == allocation_applies(alloc_type, lab_sections as int, lab_only),
        lab_sections > 0 && !lab_only && alloc_type != AllocationType::NON_LAB ==> r,
        lab_sections == 0 && !lab_only && alloc_type != AllocationType::LAB ==> r,
        lab_sections < 0 && !lab_only ==> r,
        lab_sections != 0 && alloc_type == AllocationType::LAB ==> r,
        lab_sections > 0 && alloc_type == AllocationType::NON_LAB ==> !r,
        lab_sections == 0 && alloc_type == AllocationType::LAB ==> !r,
        lab_only && alloc_type != AllocationType::LAB ==> !r,
{
    if lab_sections > 0 && alloc_type == AllocationType::NON_LAB {
        return false;
    }
    if lab_sections == 0 && alloc_type == AllocationType::LAB {
        return false;
    }
    if lab_only && alloc_type != AllocationType::LAB {
        return false;
    }
    true
}

/// The items of `items` that count for a course with `lab_sections` lab
/// sections, lab-only or not, in their order.
pub fn select_applicable(items: &Vec<TAHourAllocation>, lab_sections: i32, lab_only: bool) -> (r: Vec<TAHourAllocation>)
    ensures
        r@ == applicable_items(items@, lab_sections as int, lab_only),
        forall|i: int| 0 <= i < items@.len() ==> {
            ||| lab_sections > 0 && !lab_only && items@[i].alloc_type != AllocationType::NON_LAB
            ||| lab_sections == 0 && !lab_only && items@[i].alloc_type != AllocationType::LAB
            ||| lab_sections < 0 && !lab_only
            ||| lab_sections != 0 && items@[i].alloc_type == AllocationType::LAB
        } ==> r@.contains(#[trigger] items@[i]),
        forall|j: int| 0 <= j < r@.len() ==> {
            &&& items@.contains(#[trigger] r@[j])
            &&& !(lab_sections > 0 && r@[j].alloc_type == AllocationType::NON_LAB)
            &&& !(lab_sections == 0 && r@[j].alloc_type == AllocationType::LAB)
            &&& !(lab_only && r@[j].alloc_type != AllocationType::LAB)
        },
{
    let mut r: Vec<TAHourAllocation> = Vec::new();
    let mut i: usize = 0;
    while i < items.len()
        invariant
            i <= items.len(),
            r@ == applicable_items(items@.take(i as int), lab_sections as int, lab_only),
        decreases items.len() - i,
    {
        let a = items[i];
        proof {
            assert(items@.take(i + 1) =~= items@.take(i as int).push(a));
            lemma_applicable_items_push(items@.take(i as int), a, lab_sections as int, lab_only);
        }
        if allocation_type_applies(a.alloc_type, lab_sections, lab_only) {
            r.push(a);
        }
        i = i + 1;
    }
    proof {
        assert(items@.take(items@.len() as int) =~= items@);
        assert forall|i: int| 0 <= i < items@.len() && ({
            ||| lab_sections > 0 && !lab_only && items@[i].alloc_type != AllocationType::NON_LAB
            ||| lab_sections == 0 && !lab_only && items@[i].alloc_type != AllocationType::LAB
            ||| lab_sections < 0 && !lab_only
            ||| lab_sections != 0 && items@[i].alloc_type == AllocationType::LAB
        }) implies r@.contains(#[trigger] items@[i]) by {
            crate::laws::lemma_items_counted_by_type(items@, lab_sections as int, lab_only, i);
        }
        assert forall|j: int| 0 <= j < r@.len() implies {
            &&& items@.contains(#[trigger] r@[j])
            &&& !(lab_sections > 0 && r@[j].alloc_type == AllocationType::NON_LAB)
            &&& !(lab_sections == 0 && r@[j].alloc_type == AllocationType::LAB)
            &&& !(lab_only && r@[j].alloc_type != AllocationType::LAB)
        } by {
            crate::laws::lemma_counted_items_from_table(items@, lab_sections as int, lab_only, j);
        }
    }
    r
}

/// What the TA hours of a course are made of, before any arithmetic.
#[derive(Debug)]
pub enum AllocationPlan {
    /// The enrollment is below the minimum for the course type: the allocation is zero.
    BelowMinimum { course_type: CourseType, min_enrollment: i32 },
    /// The hours are the sum of the hours of these items, in this order (plus
    /// the first-year adjustment, where the course type and unit weight call for it).
    Items { course_type: CourseType, lab_only: bool, items: Vec<TAHourAllocation> },
}

/// Decides how the TA hours of a course are counted: its type from its code,
/// whether it is lab-only, whether it reaches the minimum enrollment for its
/// type, and which items of its type's table count for it. `None` where the
/// code has no level (see `course_level`), for which no type can be determined.
pub fn plan_ta_hours(course_name: &str, enrollment: i32, lab_sections: i32) -> (r: Option<AllocationPlan>)
    ensures
        match r {
            None => {
                &&& course_type_of(course_name@) is None
                &&& is_ascii_name(course_name@) ==> first_digit_course_type(course_name@) is None
            },
            Some(AllocationPlan::BelowMinimum { course_type, min_enrollment }) => {
                &&& course_type_of(course_name@) == Some(course_type)
                &&& is_ascii_name(course_name@) ==> first_digit_course_type(course_name@) == Some(course_type)
                &&& min_enrollment == min_enrollment_spec(course_type)
                &&& enrollment < min_enrollment
                &&& course_type == CourseType::FIRST_YEAR <==> course_level(course_name@) == Some(1u32)
                &&& course_type == CourseType::GRAD <==> (course_level(course_name@) matches Some(l) && 6 <= l)
                &&& min_enrollment == if course_type == CourseType::GRAD { 15i32 } else { 20i32 }
            },
            Some(AllocationPlan::Items { course_type, lab_only, items }) => {
                &&& course_type_of(course_name@) == Some(course_type)
                &&& is_ascii_name(course_name@) ==> first_digit_course_type(course_name@) == Some(course_type)
                &&& enrollment >= min_enrollment_spec(course_type)
                &&& lab_only == is_lab_only_name(course_name@)
                &&& items@ == applicable_items(configuration_table(course_type), lab_sections as int, lab_only)
                &&& course_type == CourseType::FIRST_YEAR <==> course_level(course_name@) == Some(1u32)
                &&& course_type == CourseType::GRAD <==> (course_level(course_name@) matches Some(l) && 6 <= l)
                &&& enrollment >= if course_type == CourseType::GRAD { 15i32 } else { 20i32 }
                &&& lab_only <==> exists|i: int| 0 <= i < lab_only_table().len()
                    && #[trigger] lab_only_table()[i]@ == remove_spaces(course_name@)
            },
        },
{
    let lab_only = check_if_lab_only(course_name);
    let course_type = match classify_course(course_name) {
        Some(t) => t,
        None => {
            return None;
        },
    };
    let min_enrollment = min_enrollment_for(course_type);
    if enrollment < min_enrollment {
        return Some(AllocationPlan::BelowMinimum { course_type, min_enrollment });
    }
    let configuration = configuration_for(course_type);
    let items = select_applicable(&configuration, lab_sections, lab_only);
    Some(AllocationPlan::Items { course_type, lab_only, items })
}

} // verus!
