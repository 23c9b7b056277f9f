use vstd::prelude::*;

use crate::calculator::{
    allocation_applies, applicable_items, course_level, course_type_of, first_digit_course_type,
    first_digit_level, first_special_case, is_lab_only_name, special_case_for,
};
use crate::specialcases::SpecialCase;
use crate::configuration::TAHourAllocation;
use crate::specialcases::{lab_only_table, special_case_table};
use crate::text::{lemma_remove_spaces_idempotent, lemma_remove_spaces_no_spaces, remove_spaces};
use crate::types::{AllocationType, CourseType};

verus! {

broadcast use vstd::seq_lib::group_filter_ensures;

/// Whether a course is lab-only does not depend on the spaces in its name.
pub proof fn lemma_lab_only_ignores_spaces(name: Seq<char>)
    ensures
        is_lab_only_name(name) == is_lab_only_name(remove_spaces(name)),
{
    lemma_remove_spaces_idempotent(name);
}

/// The special case of a course does not depend on the spaces in its name.
pub proof fn lemma_special_case_ignores_spaces(name: Seq<char>)
    ensures
        special_case_for(name) == special_case_for(remove_spaces(name)),
{
    lemma_remove_spaces_idempotent(name);
}

/// A lab-only course counts lab items only.
pub proof fn lemma_lab_only_counts_only_lab_items(items: Seq<TAHourAllocation>, lab_sections: int, i: int)
    requires
        0 <= i < applicable_items(items, lab_sections, true).len(),
    ensures
        applicable_items(items, lab_sections, true)[i].alloc_type == AllocationType::LAB,
{
}

/// A course with lab sections counts no non-lab item.
pub proof fn lemma_lab_course_skips_non_lab_items(items: Seq<TAHourAllocation>, lab_sections: int, lab_only: bool, i: int)
    requires
        lab_sections > 0,
        0 <= i < applicable_items(items, lab_sections, lab_only).len(),
    ensures
        applicable_items(items, lab_sections, lab_only)[i].alloc_type != AllocationType::NON_LAB,
{
}

/// A course without lab sections counts no lab item.
pub proof fn lemma_lecture_course_skips_lab_items(items: Seq<TAHourAllocation>, lab_only: bool, i: int)
    requires
        0 <= i < applicable_items(items, 0, lab_only).len(),
    ensures
        applicable_items(items, 0, lab_only)[i].alloc_type != AllocationType::LAB,
{
}

/// Every item that applies to a course is counted for it.
pub proof fn lemma_applicable_item_counted(items: Seq<TAHourAllocation>, lab_sections: int, lab_only: bool, i: int)
    requires
        0 <= i < items.len(),
        allocation_applies(items[i].alloc_type, lab_sections, lab_only),
    ensures
        applicable_items(items, lab_sections, lab_only).contains(items[i]),
{
}


/// No course code in the table of special cases holds a space.
pub proof fn lemma_special_case_courses_have_no_spaces(i: int, j: int)
    requires
        0 <= i < special_case_table().len(),
        0 <= j < special_case_table()[i].course@.len(),
    ensures
        special_case_table()[i].course@[j] != ' ',
{
    reveal_strlit("ECE498A");
    reveal_strlit("ECE498B");
    reveal_strlit("MTE482");
    reveal_strlit("NE340L");
    reveal_strlit("NE343");
    reveal_strlit("ECE459");
    reveal_strlit("NE455B");
    reveal_strlit("NE409");
    reveal_strlit("ECE190");
    reveal_strlit("ECE298");
    reveal_strlit("ECE198");
    reveal_strlit("ECE464");
    reveal_strlit("ECE474");
    reveal_strlit("NE216L");
    reveal_strlit("NE217L");
}

/// No course code in the table of lab-only courses holds a space.
pub proof fn lemma_lab_only_courses_have_no_spaces(i: int, j: int)
    requires
        0 <= i < lab_only_table().len(),
        0 <= j < lab_only_table()[i]@.len(),
    ensures
        lab_only_table()[i]@[j] != ' ',
{
    reveal_strlit("NE340L");
    reveal_strlit("NE455A");
    reveal_strlit("ECE198");
    reveal_strlit("ECE298");
}


/// Each course of the table of lab-only courses is found lab-only.
pub proof fn lemma_lab_only_courses_are_lab_only(i: int)
    requires
        0 <= i < lab_only_table().len(),
    ensures
        is_lab_only_name(lab_only_table()[i]@),
{
    let name = lab_only_table()[i]@;
    assert forall|j: int| 0 <= j < name.len() implies name[j] != ' ' by {
        lemma_lab_only_courses_have_no_spaces(i, j);
    }
    lemma_remove_spaces_no_spaces(name);
}

proof fn lemma_first_special_case(table: Seq<SpecialCase>, key: Seq<char>)
    ensures
        first_special_case(table, key) matches Some(sc) ==> sc.course@ == key && table.contains(sc),
        (exists|i: int| 0 <= i < table.len() && #[trigger] table[i].course@ == key)
            ==> first_special_case(table, key) is Some,
    decreases table.len(),
{
    if table.len() > 0 {
        lemma_first_special_case(table.drop_first(), key);
        if table[0].course@ != key {
            if let Some(sc) = first_special_case(table, key) {
                let k = choose|k: int| 0 <= k < table.drop_first().len() && table.drop_first()[k] == sc;
                assert(table[k + 1] == sc);
            }
            if exists|i: int| 0 <= i < table.len() && #[trigger] table[i].course@ == key {
                let i = choose|i: int| 0 <= i < table.len() && #[trigger] table[i].course@ == key;
                assert(table.drop_first()[i - 1].course@ == key);
            }
        }
    }
}

/// The special case found for a course is an entry of the table whose course
/// is the name without its spaces; and there is one wherever the table holds
/// such an entry.
pub proof fn lemma_special_case_lookup(name: Seq<char>)
    ensures
        special_case_for(name) matches Some(sc) ==> {
            &&& sc.course@ == remove_spaces(name)
            &&& special_case_table().contains(sc)
        },
        (exists|i: int| 0 <= i < special_case_table().len()
            && #[trigger] special_case_table()[i].course@ == remove_spaces(name))
            ==> special_case_for(name) is Some,
{
    lemma_first_special_case(special_case_table(), remove_spaces(name));
}

/// Each course of the table of special cases is found to be a special case.
pub proof fn lemma_special_case_courses_are_found(i: int)
    requires
        0 <= i < special_case_table().len(),
    ensures
        special_case_for(special_case_table()[i].course@) is Some,
{
    let name = special_case_table()[i].course@;
    assert forall|j: int| 0 <= j < name.len() implies name[j] != ' ' by {
        lemma_special_case_courses_have_no_spaces(i, j);
    }
    lemma_remove_spaces_no_spaces(name);
    lemma_special_case_lookup(name);
}


/// A course's type is read from its level: level 1 is first year, levels 0
/// and 2 to 5 are undergraduate, levels 6 to 9 graduate; a code without a
/// level has no type. A level is a single decimal digit.
pub proof fn lemma_course_type_by_level(name: Seq<char>)
    ensures
        course_level(name) matches Some(l) ==> l <= 9,
        course_level(name) is None <==> course_type_of(name) is None,
        course_level(name) == Some(1u32) ==> course_type_of(name) == Some(CourseType::FIRST_YEAR),
        course_level(name) matches Some(l) && (l == 0 || 2 <= l <= 5)
            ==> course_type_of(name) == Some(CourseType::UNDERGRAD),
        course_level(name) matches Some(l) && 6 <= l ==> course_type_of(name) == Some(CourseType::GRAD),
        course_type_of(name) == Some(CourseType::FIRST_YEAR) ==> course_level(name) == Some(1u32),
        course_type_of(name) == Some(CourseType::GRAD) ==> (course_level(name) matches Some(l) && 6 <= l),
{
}

/// For a code in ASCII the type is read the same way from its first decimal
/// digit: 1 is first year, 0 and 2 to 5 undergraduate, 6 to 9 graduate.
pub proof fn lemma_first_digit_type_by_digit(name: Seq<char>)
    ensures
        first_digit_level(name) matches Some(l) ==> l <= 9,
        first_digit_level(name) is None <==> first_digit_course_type(name) is None,
        first_digit_level(name) == Some(1u32) ==> first_digit_course_type(name) == Some(CourseType::FIRST_YEAR),
        first_digit_level(name) matches Some(l) && (l == 0 || 2 <= l <= 5)
            ==> first_digit_course_type(name) == Some(CourseType::UNDERGRAD),
        first_digit_level(name) matches Some(l) && 6 <= l
            ==> first_digit_course_type(name) == Some(CourseType::GRAD),
{
    lemma_first_digit_from_is_digit(name, 0);
}

proof fn lemma_first_digit_from_is_digit(s: Seq<char>, k: int)
    ensures
        crate::calculator::first_digit_from(s, k) matches Some(i)
            ==> 0 <= i < s.len() && '0' <= s[i] && s[i] <= '9',
    decreases s.len() - k,
{
    if 0 <= k < s.len() && !('0' <= s[k] && s[k] <= '9') {
        lemma_first_digit_from_is_digit(s, k + 1);
    }
}

/// A name is lab-only exactly when, with its spaces removed, it is one of the
/// courses of the lab-only table.
pub proof fn lemma_lab_only_exactly_table_courses(name: Seq<char>)
    ensures
        is_lab_only_name(name) <==> exists|i: int|
            0 <= i < lab_only_table().len() && #[trigger] lab_only_table()[i]@ == remove_spaces(name),
{
}

/// The lab-only courses are exactly NE340L, NE455A, ECE198 and ECE298, spaces ignored.
pub proof fn lemma_lab_only_courses_named(name: Seq<char>)
    ensures
        is_lab_only_name(name) <==> {
            ||| remove_spaces(name) == "NE340L"@
            ||| remove_spaces(name) == "NE455A"@
            ||| remove_spaces(name) == "ECE198"@
            ||| remove_spaces(name) == "ECE298"@
        },
{
    let key = remove_spaces(name);
    if key == "NE340L"@ { assert(lab_only_table()[0]@ == key); }
    if key == "NE455A"@ { assert(lab_only_table()[1]@ == key); }
    if key == "ECE198"@ { assert(lab_only_table()[2]@ == key); }
    if key == "ECE298"@ { assert(lab_only_table()[3]@ == key); }
}

/// An item is left out only for one of three reasons (non-lab item of a course
/// with lab sections, lab item of a course without, non-lab item of a lab-only
/// course); every other item of the table is counted.
pub proof fn lemma_items_counted_by_type(items: Seq<TAHourAllocation>, lab_sections: int, lab_only: bool, i: int)
    requires
        0 <= i < items.len(),
    ensures
        lab_sections > 0 && !lab_only && items[i].alloc_type != AllocationType::NON_LAB
            ==> applicable_items(items, lab_sections, lab_only).contains(items[i]),
        lab_sections == 0 && !lab_only && items[i].alloc_type != AllocationType::LAB
            ==> applicable_items(items, lab_sections, lab_only).contains(items[i]),
        lab_sections < 0 && !lab_only ==> applicable_items(items, lab_sections, lab_only).contains(items[i]),
        lab_sections != 0 && items[i].alloc_type == AllocationType::LAB
            ==> applicable_items(items, lab_sections, lab_only).contains(items[i]),
{
}

/// Every counted item is an item of the table that none of the three reasons leaves out.
pub proof fn lemma_counted_items_from_table(items: Seq<TAHourAllocation>, lab_sections: int, lab_only: bool, j: int)
    requires
        0 <= j < applicable_items(items, lab_sections, lab_only).len(),
    ensures
        items.contains(applicable_items(items, lab_sections, lab_only)[j]),
        !(lab_sections > 0 && applicable_items(items, lab_sections, lab_only)[j].alloc_type == AllocationType::NON_LAB),
        !(lab_sections == 0 && applicable_items(items, lab_sections, lab_only)[j].alloc_type == AllocationType::LAB),
        !(lab_only && applicable_items(items, lab_sections, lab_only)[j].alloc_type != AllocationType::LAB),
{
    let p = |a: TAHourAllocation| allocation_applies(a.alloc_type, lab_sections, lab_only);
    lemma_filter_subset(items, p, j);
}

proof fn lemma_filter_subset(items: Seq<TAHourAllocation>, p: spec_fn(TAHourAllocation) -> bool, j: int)
    requires
        0 <= j < items.filter(p).len(),
    ensures
        items.contains(items.filter(p)[j]),
    decreases items.len(),
{
    reveal_with_fuel(Seq::filter, 1);
    if items.len() > 0 {
        let init = items.drop_last();
        if j < init.filter(p).len() {
            lemma_filter_subset(init, p, j);
            let k = choose|k: int| 0 <= k < init.len() && init[k] == init.filter(p)[j];
            assert(items[k] == init[k]);
        } else {
            assert(items[items.len() - 1] == items.last());
        }
    }
}

} // verus!
