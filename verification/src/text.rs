//! Characters of strings.

use vstd::prelude::*;

verus! {

/// The characters of `text`, in order.
pub fn chars_of(text: &str) -> (chars: Vec<char>)
    ensures
        chars@ == text@,
{
    let mut chars: Vec<char> = Vec::new();
    for c in it: text.chars()
        invariant
            chars@ == it.history(),
    {
        chars.push(c);
    }
    chars
}

/// Whether the characters of `chars` from `start` on spell `word`.
pub fn tail_equals(chars: &Vec<char>, start: usize, word: &str) -> (equal: bool)
    requires
        start <= chars@.len(),
    ensures
        equal == (chars@.subrange(start as int, chars@.len() as int) == word@),
{
    let letters = chars_of(word);
    let ghost tail = chars@.subrange(start as int, chars@.len() as int);
    if chars.len() - start != letters.len() {
        return false;
    }
    let mut i: usize = 0;
    while i < letters.len()
        invariant
            i <= letters@.len(),
            start <= chars@.len(),
            letters@ == word@,
            tail == chars@.subrange(start as int, chars@.len() as int),
            tail.len() == letters@.len(),
            start + letters@.len() == chars@.len() <= usize::MAX,
            forall|j: int| 0 <= j < i ==> tail[j] == letters@[j],
        decreases letters@.len() - i,
    {
        if chars[start + i] != letters[i] {
            assert(tail[i as int] != letters@[i as int]);
            return false;
        }
        i += 1;
    }
    assert(tail =~= letters@);
    true
}

} // verus!
