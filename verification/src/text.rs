//! Small verified helpers over `str` and `String`, all stated over the
//! character sequence that a string denotes.

use vstd::prelude::*;
use vstd::string::*;

verus! {

/// The characters of `s`, in order.
pub fn chars_of(s: &str) -> (v: Vec<char>)
    ensures
        v@ == s@,
{
    let mut v: Vec<char> = Vec::new();
    for c in it: s.chars()
        invariant
            it.seq() == s@,
            v@ == it.seq().take(it.index() as int),
    {
        v.push(c);
    }
    v
}

/// Whether two strings hold the same characters.
pub fn same_text(a: &str, b: &str) -> (same: bool)
    ensures
        same == (a@ == b@),
{
    let left = chars_of(a);
    let right = chars_of(b);
    if left.len() != right.len() {
        return false;
    }
    let mut i: usize = 0;
    while i < left.len()
        invariant
            left@ == a@,
            right@ == b@,
            left.len() == right.len(),
            i <= left.len(),
            left@.take(i as int) == right@.take(i as int),
        decreases left.len() - i,
    {
        if left[i] != right[i] {
            return false;
        }
        assert(left@.take(i + 1) == left@.take(i as int).push(left@[i as int]));
        assert(right@.take(i + 1) == right@.take(i as int).push(right@[i as int]));
        i = i + 1;
    }
    assert(left@ == left@.take(i as int));
    assert(right@ == right@.take(i as int));
    true
}

/// An owned copy of `s`.
pub fn owned(s: &str) -> (copy: String)
    ensures
        copy@ == s@,
{
    s.to_owned()
}

/// The character sequences of a list of strings.
pub open spec fn texts(list: Seq<String>) -> Seq<Seq<char>> {
    list.map_values(|s: String| s@)
}

/// A copy of a list of strings.
pub fn clone_texts(list: &Vec<String>) -> (copy: Vec<String>)
    ensures
        texts(copy@) == texts(list@),
{
    let mut copy: Vec<String> = Vec::new();
    let mut i: usize = 0;
    while i < list.len()
        invariant
            i <= list.len(),
            texts(copy@) == texts(list@).take(i as int),
        decreases list.len() - i,
    {
        let ghost copied = texts(copy@);
        copy.push(list[i].clone());
        assert(texts(copy@) =~= copied.push(texts(list@)[i as int]));
        assert(texts(list@).take(i + 1) =~= copied.push(texts(list@)[i as int]));
        i = i + 1;
    }
    assert(texts(list@).take(i as int) == texts(list@));
    copy
}

} // verus!
