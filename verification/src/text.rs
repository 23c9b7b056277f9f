use vstd::prelude::*;

verus! {

broadcast use vstd::string::group_string_axioms;

/// The characters of `s`, in order.
pub fn chars_of(s: &str) -> (r: Vec<char>)
    ensures
        r@ == s@,
{
    let mut r: Vec<char> = Vec::new();
    for c in it: s.chars()
        invariant
            it.seq() == s@,
            r@ == it.seq().take(it.index()),
    {
        r.push(c);
    }
    r
}


/// `s` with every space character taken out, the other characters kept in order.
pub open spec fn remove_spaces(s: Seq<char>) -> Seq<char> {
    s.filter(|c: char| c != ' ')
}

proof fn lemma_remove_spaces_push(s: Seq<char>, c: char)
    ensures
        remove_spaces(s.push(c)) == if c == ' ' {
            remove_spaces(s)
        } else {
            remove_spaces(s).push(c)
        },
{
    reveal_with_fuel(Seq::filter, 1);
    assert(s.push(c).drop_last() =~= s);
}

/// The characters of `s` without its spaces.
pub fn without_spaces(s: &str) -> (r: Vec<char>)
    ensures
        r@ == remove_spaces(s@),
{
    let mut r: Vec<char> = Vec::new();
    for c in it: s.chars()
        invariant
            it.seq() == s@,
            r@ == remove_spaces(it.seq().take(it.index())),
    {
        proof {
            let i = it.index();
            assert(s@.take(i + 1) =~= s@.take(i).push(c));
            lemma_remove_spaces_push(s@.take(i), c);
        }
        if c != ' ' {
            r.push(c);
        }
    }
    proof {
        assert(s@.take(s@.len() as int) =~= s@);
    }
    r
}

/// Taking the spaces out twice is the same as taking them out once.
pub proof fn lemma_remove_spaces_idempotent(s: Seq<char>)
    ensures
        remove_spaces(remove_spaces(s)) == remove_spaces(s),
    decreases s.len(),
{
    if s.len() == 0 {
        reveal_with_fuel(Seq::filter, 1);
    } else {
        let init = s.drop_last();
        lemma_remove_spaces_idempotent(init);
        assert(init.push(s.last()) =~= s);
        lemma_remove_spaces_push(init, s.last());
        if s.last() != ' ' {
            lemma_remove_spaces_push(remove_spaces(init), s.last());
        }
    }
}

/// A sequence without spaces is left as it is.
pub proof fn lemma_remove_spaces_no_spaces(s: Seq<char>)
    requires
        forall|j: int| 0 <= j < s.len() ==> s[j] != ' ',
    ensures
        remove_spaces(s) == s,
    decreases s.len(),
{
    if s.len() == 0 {
        reveal_with_fuel(Seq::filter, 1);
    } else {
        let init = s.drop_last();
        assert forall|j: int| 0 <= j < init.len() implies init[j] != ' ' by {
            assert(init[j] == s[j]);
        }
        lemma_remove_spaces_no_spaces(init);
        assert(init.push(s.last()) =~= s);
        lemma_remove_spaces_push(init, s.last());
    }
}

/// Whether two character sequences are equal.
pub fn chars_equal(a: &Vec<char>, b: &Vec<char>) -> (r: bool)
    ensures
        r == (a@ == b@),
{
    if a.len() != b.len() {
        return false;
    }
    let mut i: usize = 0;
    while i < a.len()
        invariant
            a.len() == b.len(),
            i <= a.len(),
            forall|j: int| 0 <= j < i ==> a@[j] == b@[j],
        decreases a.len() - i,
    {
        if a[i] != b[i] {
            return false;
        }
        i = i + 1;
    }
    proof {
        assert(a@ =~= b@);
    }
    true
}

} // verus!
