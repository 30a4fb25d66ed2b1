//! Character-level text search and assembly, stated over `Seq<char>`.

use vstd::prelude::*;

verus! {

/// `pat` occurs in `hay` starting at position `i`.
pub open spec fn occurs_at(hay: Seq<char>, pat: Seq<char>, i: int) -> bool {
    &&& 0 <= i
    &&& i + pat.len() <= hay.len()
    &&& hay.subrange(i, i + pat.len()) == pat
}

/// `pat` occurs somewhere in `hay`.
pub open spec fn contains(hay: Seq<char>, pat: Seq<char>) -> bool {
    exists|i: int| occurs_at(hay, pat, i)
}

/// `i` is the position of the first occurrence of `pat` in `hay` at or after `from`.
pub open spec fn first_occurrence(hay: Seq<char>, pat: Seq<char>, from: int, i: int) -> bool {
    &&& from <= i
    &&& occurs_at(hay, pat, i)
    &&& forall|j: int| from <= j < i ==> !occurs_at(hay, pat, j)
}

/// `pat` does not occur in `hay` at or after `from`.
pub open spec fn no_occurrence(hay: Seq<char>, pat: Seq<char>, from: int) -> bool {
    forall|j: int| from <= j ==> !occurs_at(hay, pat, j)
}

/// The position of the first occurrence of `pat` in `hay` at or after `from`,
/// if there is one.
pub open spec fn find(hay: Seq<char>, pat: Seq<char>, from: int) -> Option<int> {
    if exists|i: int| first_occurrence(hay, pat, from, i) {
        Some(choose|i: int| first_occurrence(hay, pat, from, i))
    } else {
        None
    }
}

/// A first occurrence is the one that `find` gives.
pub proof fn lemma_find_first(hay: Seq<char>, pat: Seq<char>, from: int, i: int)
    requires
        first_occurrence(hay, pat, from, i),
    ensures
        find(hay, pat, from) == Some(i),
{
}

/// Where nothing occurs, `find` gives nothing.
pub proof fn lemma_find_none(hay: Seq<char>, pat: Seq<char>, from: int)
    requires
        no_occurrence(hay, pat, from),
    ensures
        find(hay, pat, from) is None,
{
}

/// `String::push` appends the character to the end of the string.
pub assume_specification[ String::push ](s: &mut String, ch: char)
    ensures
        final(s)@ == old(s)@.push(ch),
;

/// The characters of a string, in order.
pub fn chars_of(s: &str) -> (v: Vec<char>)
    ensures
        v@ == s@,
{
    let mut v: Vec<char> = Vec::new();
    for c in it: s.chars()
        invariant
            it.seq() == s@,
            v@ == s@.take(it.index()),
    {
        v.push(c);
    }
    v
}

/// The string made of the characters `chars[from..to]`.
pub fn string_of(chars: &Vec<char>, from: usize, to: usize) -> (s: String)
    requires
        from <= to <= chars.len(),
    ensures
        s@ == chars@.subrange(from as int, to as int),
{
    let mut s = String::new();
    let mut i: usize = from;
    while i < to
        invariant
            from <= i <= to <= chars.len(),
            s@ == chars@.subrange(from as int, i as int),
        decreases to - i,
    {
        s.push(chars[i]);
        i += 1;
    }
    s
}

/// Whether `pat` occurs in `hay` at position `i`.
pub fn matches_at(hay: &Vec<char>, pat: &Vec<char>, i: usize) -> (b: bool)
    ensures
        b == occurs_at(hay@, pat@, i as int),
{
    if pat.len() > hay.len() || i > hay.len() - pat.len() {
        return false;
    }
    let mut k: usize = 0;
    while k < pat.len()
        invariant
            i + pat.len() <= hay.len(),
            k <= pat.len(),
            forall|m: int| 0 <= m < k ==> hay@[i + m] == pat@[m],
        decreases pat.len() - k,
    {
        if hay[i + k] != pat[k] {
            return false;
        }
        k += 1;
    }
    assert(hay@.subrange(i as int, i + pat@.len()) =~= pat@);
    true
}

/// The position of the first occurrence of `pat` in `hay` at or after `from`.
pub fn find_from(hay: &Vec<char>, pat: &Vec<char>, from: usize) -> (r: Option<usize>)
    ensures
        match r {
            Some(i) => first_occurrence(hay@, pat@, from as int, i as int),
            None => no_occurrence(hay@, pat@, from as int),
        },
        find(hay@, pat@, from as int) == match r {
            Some(i) => Some(i as int),
            None => None,
        },
{
    let r = first_from(hay, pat, from);
    proof {
        match r {
            Some(i) => lemma_find_first(hay@, pat@, from as int, i as int),
            None => lemma_find_none(hay@, pat@, from as int),
        }
    }
    r
}

/// The search behind `find_from`.
fn first_from(hay: &Vec<char>, pat: &Vec<char>, from: usize) -> (r: Option<usize>)
    ensures
        match r {
            Some(i) => first_occurrence(hay@, pat@, from as int, i as int),
            None => no_occurrence(hay@, pat@, from as int),
        },
{
    if from > hay.len() {
        return None;
    }
    let mut i: usize = from;
    while i < hay.len()
        invariant
            from <= i <= hay.len(),
            forall|j: int| from <= j < i ==> !occurs_at(hay@, pat@, j),
        decreases hay.len() - i,
    {
        if matches_at(hay, pat, i) {
            return Some(i);
        }
        i += 1;
    }
    if matches_at(hay, pat, i) {
        Some(i)
    } else {
        None
    }
}

/// Whether `pat` occurs somewhere in `hay`.
pub fn str_contains(hay: &str, pat: &str) -> (b: bool)
    ensures
        b == contains(hay@, pat@),
{
    let hay_chars = chars_of(hay);
    let pat_chars = chars_of(pat);
    find_from(&hay_chars, &pat_chars, 0).is_some()
}

} // verus!
