//! Small text helpers shared by the workflow modules.
use vstd::prelude::*;

verus! {

/// Whether `s` is exactly the word `w`.
pub fn is_word(s: &str, w: &str) -> (r: bool)
    ensures
        r == (s@ == w@),
{
    let n = s.unicode_len();
    if n != w.unicode_len() {
        return false;
    }
    let mut i: usize = 0;
    while i < n
        invariant
            n == s@.len(),
            n == w@.len(),
            i <= n,
            forall|j: int| 0 <= j < i ==> s@[j] == w@[j],
        decreases n - i,
    {
        if s.get_char(i) != w.get_char(i) {
            assert(s@[i as int] != w@[i as int]);
            return false;
        }
        i = i + 1;
    }
    assert(s@ =~= w@);
    true
}

/// A copy of an optional text.
pub fn copy_text(t: &Option<String>) -> (r: Option<String>)
    ensures
        r == *t,
{
    match t {
        Some(s) => Some(s.clone()),
        None => None,
    }
}

/// An optional text with `None` shown as the empty text.
pub fn text_or_empty(t: &Option<String>) -> (r: String)
    ensures
        r@ == (match t {
            Some(s) => s@,
            None => Seq::<char>::empty(),
        }),
{
    match t {
        Some(s) => s.clone(),
        None => String::new(),
    }
}

} // verus!
