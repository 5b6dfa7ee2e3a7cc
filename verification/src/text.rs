//! Comparing and searching text.

use crate::sequence::{first_index_of, lemma_first_index_is, lemma_first_index_none};
use vstd::prelude::*;
use vstd::std_specs::iter::IteratorSpec;
use vstd::string::StringSliceAdditionalSpecFns;
use vstd::utf8::encode_utf8_decode_utf8;

verus! {

/// Whether two texts hold the same characters.
pub fn same_text(a: &str, b: &str) -> (same: bool)
    ensures
        same == (a@ == b@),
{
    let left = a.as_bytes();
    let right = b.as_bytes();
    proof {
        encode_utf8_decode_utf8(a@);
        encode_utf8_decode_utf8(b@);
    }
    if left.len() != right.len() {
        return false;
    }
    let mut i: usize = 0;
    while i < left.len()
        invariant
            left@ == a.spec_bytes(),
            right@ == b.spec_bytes(),
            left@.len() == right@.len(),
            0 <= i <= left@.len(),
            forall|j: int| 0 <= j < i ==> left@[j] == right@[j],
        decreases left@.len() - i,
    {
        if left[i] != right[i] {
            return false;
        }
        i += 1;
    }
    assert(left@ =~= right@);
    true
}

/// The place of the first `mark` in `text`, counted in characters, if `text`
/// holds one.
pub fn find_first(text: &str, mark: char) -> (found: Option<usize>)
    ensures
        match found {
            Some(at) => at == first_index_of(text@, mark) && at < text@.len(),
            None => first_index_of(text@, mark) == text@.len(),
        },
        found is Some <==> text@.contains(mark),
{
    broadcast use vstd::string::group_string_axioms;

    let n = text.unicode_len();
    let mut rest = text.chars();
    let mut i: usize = 0;
    loop
        invariant
            n == text@.len(),
            0 <= i <= n,
            rest.obeys_prophetic_iter_laws(),
            rest.remaining() == text@.skip(i as int),
            forall|j: int| 0 <= j < i ==> text@[j] != mark,
        decreases n - i,
    {
        match rest.next() {
            Some(c) => {
                if c == mark {
                    proof {
                        lemma_first_index_is(text@, mark, i as int);
                    }
                    return Some(i);
                }
                i += 1;
            },
            None => {
                proof {
                    lemma_first_index_none(text@, mark);
                }
                return None;
            },
        }
    }
}

} // verus!
